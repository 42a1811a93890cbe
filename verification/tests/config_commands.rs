use auction_backend::config::ConfigUpdate;
use auction_backend::config::ConfigValidationError;
use auction_backend::config::MAX_BPS;
use auction_backend::config::ProtocolConfig;
use auction_backend::config::set_auction_duration;
use auction_backend::config::set_auction_vault;
use auction_backend::config::set_character_owner_tax_bps;
use auction_backend::config::set_digichar_factory;
use auction_backend::config::set_lp_lock_bps;
use auction_backend::config::set_ownership_certificate;
use auction_backend::config::set_protocol_admin_tax_bps;
use auction_backend::config::set_swap_factory;
use auction_backend::config::set_swap_router;
use auction_backend::config::parse_address;
use auction_backend::config::set_weth;
use auction_backend::config::submit_config_update;
use auction_backend::config::update_protocol_admin;
use auction_backend::types::Address;

fn addr(lo: u128) -> Address {
    Address { hi: 0, lo }
}

#[test]
fn repeated_auction_duration_update_is_a_no_op() {
    let mut cfg = ProtocolConfig::unknown();
    let update = set_auction_duration(3600).unwrap();
    assert_eq!(update, ConfigUpdate::AuctionDuration(3600));

    // The first submission changes the protocol state; the identical second
    // one is success with no observable change.
    assert!(submit_config_update(&mut cfg, update));
    let after_first = cfg;
    assert!(!submit_config_update(&mut cfg, update));
    assert_eq!(cfg, after_first);
    assert_eq!(cfg.auction_duration, Some(3600));
}

#[test]
fn distinct_field_updates_commute() {
    let u1 = set_weth(addr(0xAA)).unwrap();
    let u2 = set_lp_lock_bps(250).unwrap();

    let mut one_way = ProtocolConfig::unknown();
    submit_config_update(&mut one_way, u1);
    submit_config_update(&mut one_way, u2);

    let mut other_way = ProtocolConfig::unknown();
    submit_config_update(&mut other_way, u2);
    submit_config_update(&mut other_way, u1);

    assert_eq!(one_way, other_way);
}

#[test]
fn every_setter_validates_and_builds_its_update() {
    let a = addr(7);
    assert_eq!(set_weth(a), Ok(ConfigUpdate::Weth(a)));
    assert_eq!(set_swap_router(a), Ok(ConfigUpdate::SwapRouter(a)));
    assert_eq!(set_swap_factory(a), Ok(ConfigUpdate::SwapFactory(a)));
    assert_eq!(set_auction_vault(a), Ok(ConfigUpdate::AuctionVault(a)));
    assert_eq!(set_digichar_factory(a), Ok(ConfigUpdate::DigicharFactory(a)));
    assert_eq!(update_protocol_admin(a), Ok(ConfigUpdate::ProtocolAdmin(a)));
    assert_eq!(set_ownership_certificate(a), Ok(ConfigUpdate::OwnershipCertificate(a)));
    assert_eq!(set_lp_lock_bps(MAX_BPS), Ok(ConfigUpdate::LpLockBps(MAX_BPS)));
    assert_eq!(set_protocol_admin_tax_bps(0), Ok(ConfigUpdate::ProtocolAdminTaxBps(0)));
    assert_eq!(set_character_owner_tax_bps(42), Ok(ConfigUpdate::CharacterOwnerTaxBps(42)));
    assert_eq!(set_auction_duration(1), Ok(ConfigUpdate::AuctionDuration(1)));
}

#[test]
fn zero_addresses_are_rejected() {
    let zero = Address { hi: 0, lo: 0 };
    assert_eq!(set_weth(zero), Err(ConfigValidationError::ZeroAddress));
    assert_eq!(set_swap_router(zero), Err(ConfigValidationError::ZeroAddress));
    assert_eq!(set_swap_factory(zero), Err(ConfigValidationError::ZeroAddress));
    assert_eq!(set_auction_vault(zero), Err(ConfigValidationError::ZeroAddress));
    assert_eq!(set_digichar_factory(zero), Err(ConfigValidationError::ZeroAddress));
    assert_eq!(update_protocol_admin(zero), Err(ConfigValidationError::ZeroAddress));
    assert_eq!(set_ownership_certificate(zero), Err(ConfigValidationError::ZeroAddress));

    // An address is zero only when both words are.
    assert!(set_weth(Address { hi: 1, lo: 0 }).is_ok());
    assert!(set_weth(Address { hi: 0, lo: 1 }).is_ok());
}

#[test]
fn out_of_range_shares_and_zero_duration_are_rejected() {
    assert_eq!(set_lp_lock_bps(MAX_BPS + 1), Err(ConfigValidationError::BpsOutOfRange));
    assert_eq!(set_protocol_admin_tax_bps(u16::MAX), Err(ConfigValidationError::BpsOutOfRange));
    assert_eq!(
        set_character_owner_tax_bps(MAX_BPS + 1),
        Err(ConfigValidationError::BpsOutOfRange)
    );
    assert_eq!(set_auction_duration(0), Err(ConfigValidationError::ZeroDuration));
}

#[test]
fn updates_fill_the_mirror_field_by_field() {
    let mut cfg = ProtocolConfig::unknown();
    assert_eq!(cfg.weth, None);
    assert!(submit_config_update(&mut cfg, set_weth(addr(1)).unwrap()));
    assert!(submit_config_update(&mut cfg, set_protocol_admin_tax_bps(30).unwrap()));
    assert_eq!(cfg.weth, Some(addr(1)));
    assert_eq!(cfg.protocol_admin_tax_bps, Some(30));
    assert_eq!(cfg.swap_router, None);

    // Overwriting with a different value is an observable change again.
    assert!(submit_config_update(&mut cfg, set_weth(addr(2)).unwrap()));
    assert_eq!(cfg.weth, Some(addr(2)));
}

#[test]
fn address_literals_parse_exactly() {
    let parsed = parse_address(b"0x2345678901234567890123456789012345678901").unwrap();
    assert_eq!(parsed.hi, 0x23456789);
    assert_eq!(parsed.lo, 0x01234567890123456789012345678901);

    // Both digit cases are accepted.
    let upper = parse_address(b"0xABCDEF0000000000000000000000000000000abc").unwrap();
    assert_eq!(upper.hi, 0xABCDEF00);
    assert_eq!(upper.lo, 0xabc);
}

#[test]
fn malformed_address_literals_are_rejected() {
    let err = Err(ConfigValidationError::MalformedAddress);
    assert_eq!(parse_address(b""), err);
    assert_eq!(parse_address(b"0x1234"), err);
    assert_eq!(parse_address(b"2345678901234567890123456789012345678901xx"), err);
    assert_eq!(parse_address(b"0x234567890123456789012345678901234567890g"), err);
    assert_eq!(parse_address(b"0X2345678901234567890123456789012345678901"), err);

    // The parsed zero address composes with the setters' validation.
    let zero = parse_address(b"0x0000000000000000000000000000000000000000").unwrap();
    assert_eq!(set_weth(zero), Err(ConfigValidationError::ZeroAddress));
}
