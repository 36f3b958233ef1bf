use amm::layout::CONFIG_LEN;
use amm::Config;
use amm::Pubkey;

fn sample() -> Config {
    Config {
        seed: 0x0102_0304_0506_0708,
        fee: 0x01f4,
        mint_x: Pubkey { bytes: [0xaa; 32] },
        mint_y: Pubkey { bytes: [0xbb; 32] },
        lp_bump: 254,
        bump: 255,
        k: 0x0f0e_0d0c_0b0a_0908_0706_0504_0302_0100,
    }
}

#[test]
fn record_is_stored_field_by_field() {
    let bytes = sample().to_bytes();
    assert_eq!(bytes.len(), 92);
    assert_eq!(CONFIG_LEN, 92);
    assert_eq!(&bytes[0..8], &[8u8, 7, 6, 5, 4, 3, 2, 1]);
    assert_eq!(&bytes[8..10], &[0xf4u8, 0x01]);
    assert_eq!(&bytes[10..42], &[0xaau8; 32]);
    assert_eq!(&bytes[42..74], &[0xbbu8; 32]);
    assert_eq!(bytes[74], 254);
    assert_eq!(bytes[75], 255);
    assert_eq!(&bytes[76..92], &[0u8, 1, 2, 3, 4, 5, 6, 7, 8, 9, 10, 11, 12, 13, 14, 15]);
}

#[test]
fn stored_record_reads_back_unchanged() {
    let config = sample();
    assert_eq!(Config::from_bytes(&config.to_bytes()), Some(config));
    let mut keys = [0u8; 32];
    for (i, byte) in keys.iter_mut().enumerate() {
        *byte = i as u8;
    }
    let extreme = Config {
        seed: u64::MAX,
        fee: u16::MAX,
        mint_x: Pubkey { bytes: keys },
        mint_y: Pubkey { bytes: [0; 32] },
        lp_bump: 0,
        bump: 1,
        k: u128::MAX,
    };
    assert_eq!(Config::from_bytes(&extreme.to_bytes()), Some(extreme));
}

#[test]
fn bytes_read_back_store_the_same_bytes() {
    let mut bytes = vec![0u8; 92];
    for (i, byte) in bytes.iter_mut().enumerate() {
        *byte = (i * 7 + 3) as u8;
    }
    let read = Config::from_bytes(&bytes).unwrap();
    assert_eq!(read.to_bytes(), bytes);
    assert_eq!(read.lp_bump, bytes[74]);
    assert_eq!(read.bump, bytes[75]);
}

#[test]
fn record_of_wrong_length_is_not_read() {
    assert_eq!(Config::from_bytes(&[]), None);
    assert_eq!(Config::from_bytes(&[0u8; 91]), None);
    assert_eq!(Config::from_bytes(&[0u8; 93]), None);
    assert!(Config::from_bytes(&[0u8; 92]).is_some());
}
