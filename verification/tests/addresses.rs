use mythra_program::pubkey::Pubkey;
use mythra_program::state::{Nonce, Ticket};

#[test]
fn addresses_compare_byte_by_byte() {
    let a = Pubkey::new_from_array([7; 32]);
    let mut b = Pubkey { bytes: [7; 32] };
    assert_eq!(a, b);
    assert_eq!(a.to_bytes(), [7; 32]);
    b.bytes[31] = 8;
    assert_ne!(a, b);
    b.bytes[31] = 7;
    b.bytes[0] = 6;
    assert_ne!(a, b);
}

#[test]
fn the_default_address_is_all_zero() {
    assert_eq!(Pubkey::default().to_bytes(), [0; 32]);
    assert_eq!(Pubkey::default(), Pubkey { bytes: [0; 32] });
}

#[test]
fn fixed_record_sizes() {
    assert_eq!(Ticket::SPACE, 187);
    assert_eq!(Nonce::SPACE, 90);
    assert_eq!(Nonce::DEFAULT_EXPIRY_SECONDS, 300);
}
