use lightctl::config::{Configuration, Hardware, Light, Network};

fn config_with(addresses: &[u16]) -> Configuration {
    Configuration {
        network: Network { bind_addr: String::from("127.0.0.1:8080") },
        hardware: Hardware { device: String::from("/dev/spidev0.0"), nrf24_ce_gpio: 25 },
        lights: addresses.iter().map(|a| Light { address: *a }).collect(),
    }
}

#[test]
fn addresses_in_the_link_space_validate() {
    assert!(config_with(&[1, 7, 512]).validate());
    assert!(config_with(&[]).validate());
}

#[test]
fn addresses_outside_the_link_space_are_refused() {
    assert!(!config_with(&[0]).validate());
    assert!(!config_with(&[513]).validate());
    assert!(!config_with(&[1, 0, 7]).validate());
}
