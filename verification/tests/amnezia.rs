use wireguard_conf::{AmneziaSettings, ExportConfig, InterfaceBuilder, WireguardError};

#[test]
fn amnezia_random() {
    let amnezia_settings = AmneziaSettings::random();

    assert_eq!(amnezia_settings.validate(), Ok(()));

    _ = InterfaceBuilder::new().amnezia_settings(amnezia_settings).build();
}

#[test]
fn amnezia_validation() {
    let amnezia_settings = AmneziaSettings::random();

    {
        let settings = AmneziaSettings { jc: 999, ..amnezia_settings };

        assert_eq!(
            settings.validate(),
            Err(WireguardError::InvalidAmneziaSetting("Jc".to_string()))
        );
    }

    {
        let settings = AmneziaSettings { jmin: 800, jmax: 500, ..amnezia_settings };

        assert_eq!(
            settings.validate(),
            Err(WireguardError::InvalidAmneziaSetting("Jmin".to_string()))
        );
    }

    {
        let settings = AmneziaSettings { jmax: 9999, ..amnezia_settings };

        assert_eq!(
            settings.validate(),
            Err(WireguardError::InvalidAmneziaSetting("Jmax".to_string()))
        );
    }

    {
        let settings = AmneziaSettings { s1: 9999, ..amnezia_settings };

        assert_eq!(
            settings.validate(),
            Err(WireguardError::InvalidAmneziaSetting("S1".to_string()))
        );
    }

    {
        let settings = AmneziaSettings { s1: 100 - 56, s2: 100, ..amnezia_settings };

        assert_eq!(
            settings.validate(),
            Err(WireguardError::InvalidAmneziaSetting("S1".to_string()))
        );
    }

    {
        let settings = AmneziaSettings { s2: 9999, ..amnezia_settings };

        assert_eq!(
            settings.validate(),
            Err(WireguardError::InvalidAmneziaSetting("S2".to_string()))
        );
    }

    {
        let settings = AmneziaSettings { h1: 222, h2: 222, h3: 333, h4: 444, ..amnezia_settings };

        assert_eq!(
            settings.validate(),
            Err(WireguardError::InvalidAmneziaSetting("H1/H2/H3/H4".to_string()))
        );
    }
}

#[test]
fn amnezia_validation_order() {
    // two violations at once: the first check in the fixed order wins
    let settings = AmneziaSettings {
        jc: 999,
        jmin: 800,
        jmax: 500,
        s1: 20,
        s2: 30,
        h1: 1,
        h2: 2,
        h3: 3,
        h4: 4,
    };

    assert_eq!(
        settings.validate(),
        Err(WireguardError::InvalidAmneziaSetting("Jc".to_string()))
    );
}

#[test]
fn amnezia_new_enforces_rules() {
    let ok = AmneziaSettings::new(4, 50, 70, 20, 30, 1, 2, 3, 4).unwrap();
    assert_eq!(ok.jc, 4);
    assert_eq!(ok.jmin, 50);
    assert_eq!(ok.jmax, 70);
    assert_eq!(ok.s1, 20);
    assert_eq!(ok.s2, 30);
    assert_eq!(ok.validate(), Ok(()));

    assert_eq!(
        AmneziaSettings::new(0, 50, 70, 20, 30, 1, 2, 3, 4),
        Err(WireguardError::InvalidAmneziaSetting("Jc".to_string()))
    );
    assert_eq!(
        AmneziaSettings::new(4, 50, 70, 20, 76, 1, 2, 3, 4),
        Err(WireguardError::InvalidAmneziaSetting("S1".to_string()))
    );
}

#[test]
fn amnezia_config_exact_text() {
    let settings = AmneziaSettings {
        jc: 4,
        jmin: 50,
        jmax: 70,
        s1: 20,
        s2: 30,
        h1: 11,
        h2: 12,
        h3: 13,
        h4: 14,
    };

    assert_eq!(
        settings.config(),
        "Jc = 4\nJmin = 50\nJmax = 70\nS1 = 20\nS2 = 30\nH1 = 11\nH2 = 12\nH3 = 13\nH4 = 14\n"
    );
}

#[test]
fn amnezia_error_message() {
    let err = WireguardError::InvalidAmneziaSetting("Jc".to_string());
    assert_eq!(err.message(), "invalid amnezia setting: Jc");
}
