//! The protocol configuration command layer.
//!
//! Each setter validates its input locally and yields the single-field
//! update command that the chain writer broadcasts.  The library also keeps
//! a mirror of the on-chain configuration; applying an update to the mirror
//! is idempotent, field by field, exactly as the on-chain write is.

use vstd::prelude::*;

use crate::types::Address;

verus! {

/// Fee shares are expressed in basis points; nothing may exceed the whole.
pub const MAX_BPS: u16 = 10000;

/// Why a configuration input was rejected before any network call.
#[derive(Clone, Copy, PartialEq, Eq, Structural, Debug)]
pub enum ConfigValidationError {
    /// The zero address names no contract or account.
    ZeroAddress,
    /// A basis-point share above the whole.
    BpsOutOfRange,
    /// An auction cannot last zero seconds.
    ZeroDuration,
    /// Not a `0x`-prefixed, 40-digit hexadecimal address literal.
    MalformedAddress,
}

/// A validated single-field update, ready for submission.
#[derive(Clone, Copy, PartialEq, Eq, Structural, Debug)]
pub enum ConfigUpdate {
    Weth(Address),
    LpLockBps(u16),
    SwapRouter(Address),
    SwapFactory(Address),
    AuctionVault(Address),
    AuctionDuration(u64),
    DigicharFactory(Address),
    ProtocolAdmin(Address),
    ProtocolAdminTaxBps(u16),
    CharacterOwnerTaxBps(u16),
    OwnershipCertificate(Address),
}

/// The mirror of the on-chain configuration; a field is `None` until it has
/// been observed or written.
#[derive(Clone, Copy, PartialEq, Eq, Structural, Debug)]
pub struct ProtocolConfig {
    pub weth: Option<Address>,
    pub lp_lock_bps: Option<u16>,
    pub swap_router: Option<Address>,
    pub swap_factory: Option<Address>,
    pub auction_vault: Option<Address>,
    pub auction_duration: Option<u64>,
    pub digichar_factory: Option<Address>,
    pub protocol_admin: Option<Address>,
    pub protocol_admin_tax_bps: Option<u16>,
    pub character_owner_tax_bps: Option<u16>,
    pub ownership_certificate: Option<Address>,
}

impl ProtocolConfig {
    /// A mirror with every field unknown.
    pub fn unknown() -> (c: ProtocolConfig)
        ensures
            c == spec_unknown_config(),
    {
        ProtocolConfig {
            weth: None,
            lp_lock_bps: None,
            swap_router: None,
            swap_factory: None,
            auction_vault: None,
            auction_duration: None,
            digichar_factory: None,
            protocol_admin: None,
            protocol_admin_tax_bps: None,
            character_owner_tax_bps: None,
            ownership_certificate: None,
        }
    }
}

/// The all-unknown mirror.
pub open spec fn spec_unknown_config() -> ProtocolConfig {
    ProtocolConfig {
        weth: None,
        lp_lock_bps: None,
        swap_router: None,
        swap_factory: None,
        auction_vault: None,
        auction_duration: None,
        digichar_factory: None,
        protocol_admin: None,
        protocol_admin_tax_bps: None,
        character_owner_tax_bps: None,
        ownership_certificate: None,
    }
}

/// The configuration after one single-field update.
pub open spec fn spec_apply_update(c: ProtocolConfig, u: ConfigUpdate) -> ProtocolConfig {
    match u {
        ConfigUpdate::Weth(a) => ProtocolConfig { weth: Some(a), ..c },
        ConfigUpdate::LpLockBps(b) => ProtocolConfig { lp_lock_bps: Some(b), ..c },
        ConfigUpdate::SwapRouter(a) => ProtocolConfig { swap_router: Some(a), ..c },
        ConfigUpdate::SwapFactory(a) => ProtocolConfig { swap_factory: Some(a), ..c },
        ConfigUpdate::AuctionVault(a) => ProtocolConfig { auction_vault: Some(a), ..c },
        ConfigUpdate::AuctionDuration(d) => ProtocolConfig { auction_duration: Some(d), ..c },
        ConfigUpdate::DigicharFactory(a) => ProtocolConfig { digichar_factory: Some(a), ..c },
        ConfigUpdate::ProtocolAdmin(a) => ProtocolConfig { protocol_admin: Some(a), ..c },
        ConfigUpdate::ProtocolAdminTaxBps(b) => ProtocolConfig {
            protocol_admin_tax_bps: Some(b),
            ..c
        },
        ConfigUpdate::CharacterOwnerTaxBps(b) => ProtocolConfig {
            character_owner_tax_bps: Some(b),
            ..c
        },
        ConfigUpdate::OwnershipCertificate(a) => ProtocolConfig {
            ownership_certificate: Some(a),
            ..c
        },
    }
}

/// Config updates are idempotent: re-applying the same single-field write
/// changes nothing.
pub proof fn lemma_config_update_idempotent(c: ProtocolConfig, u: ConfigUpdate)
    ensures
        spec_apply_update(spec_apply_update(c, u), u) == spec_apply_update(c, u),
{
}

/// Distinct fields commute: two updates to different fields may be applied
/// in either order.
pub proof fn lemma_config_updates_commute(c: ProtocolConfig, u1: ConfigUpdate, u2: ConfigUpdate)
    requires
        !updates_same_field(u1, u2),
    ensures
        spec_apply_update(spec_apply_update(c, u1), u2) == spec_apply_update(
            spec_apply_update(c, u2),
            u1,
        ),
{
}

/// Whether two updates write the same field.
pub open spec fn updates_same_field(u1: ConfigUpdate, u2: ConfigUpdate) -> bool {
    match (u1, u2) {
        (ConfigUpdate::Weth(..), ConfigUpdate::Weth(..)) => true,
        (ConfigUpdate::LpLockBps(..), ConfigUpdate::LpLockBps(..)) => true,
        (ConfigUpdate::SwapRouter(..), ConfigUpdate::SwapRouter(..)) => true,
        (ConfigUpdate::SwapFactory(..), ConfigUpdate::SwapFactory(..)) => true,
        (ConfigUpdate::AuctionVault(..), ConfigUpdate::AuctionVault(..)) => true,
        (ConfigUpdate::AuctionDuration(..), ConfigUpdate::AuctionDuration(..)) => true,
        (ConfigUpdate::DigicharFactory(..), ConfigUpdate::DigicharFactory(..)) => true,
        (ConfigUpdate::ProtocolAdmin(..), ConfigUpdate::ProtocolAdmin(..)) => true,
        (ConfigUpdate::ProtocolAdminTaxBps(..), ConfigUpdate::ProtocolAdminTaxBps(..)) => true,
        (ConfigUpdate::CharacterOwnerTaxBps(..), ConfigUpdate::CharacterOwnerTaxBps(..)) => true,
        (ConfigUpdate::OwnershipCertificate(..), ConfigUpdate::OwnershipCertificate(..)) => true,
        _ => false,
    }
}

/// Apply one validated update to the mirror, reporting whether anything
/// observably changed: re-applying an identical value is success and a
/// no-op.
pub fn submit_config_update(c: &mut ProtocolConfig, u: ConfigUpdate) -> (changed: bool)
    ensures
        *final(c) == spec_apply_update(*old(c), u),
        changed == (*final(c) != *old(c)),
{
    let same: bool = match u {
        ConfigUpdate::Weth(a) => match c.weth {
            Some(x) => x == a,
            None => false,
        },
        ConfigUpdate::LpLockBps(b) => match c.lp_lock_bps {
            Some(x) => x == b,
            None => false,
        },
        ConfigUpdate::SwapRouter(a) => match c.swap_router {
            Some(x) => x == a,
            None => false,
        },
        ConfigUpdate::SwapFactory(a) => match c.swap_factory {
            Some(x) => x == a,
            None => false,
        },
        ConfigUpdate::AuctionVault(a) => match c.auction_vault {
            Some(x) => x == a,
            None => false,
        },
        ConfigUpdate::AuctionDuration(d) => match c.auction_duration {
            Some(x) => x == d,
            None => false,
        },
        ConfigUpdate::DigicharFactory(a) => match c.digichar_factory {
            Some(x) => x == a,
            None => false,
        },
        ConfigUpdate::ProtocolAdmin(a) => match c.protocol_admin {
            Some(x) => x == a,
            None => false,
        },
        ConfigUpdate::ProtocolAdminTaxBps(b) => match c.protocol_admin_tax_bps {
            Some(x) => x == b,
            None => false,
        },
        ConfigUpdate::CharacterOwnerTaxBps(b) => match c.character_owner_tax_bps {
            Some(x) => x == b,
            None => false,
        },
        ConfigUpdate::OwnershipCertificate(a) => match c.ownership_certificate {
            Some(x) => x == a,
            None => false,
        },
    };
    match u {
        ConfigUpdate::Weth(a) => {
            c.weth = Some(a);
        },
        ConfigUpdate::LpLockBps(b) => {
            c.lp_lock_bps = Some(b);
        },
        ConfigUpdate::SwapRouter(a) => {
            c.swap_router = Some(a);
        },
        ConfigUpdate::SwapFactory(a) => {
            c.swap_factory = Some(a);
        },
        ConfigUpdate::AuctionVault(a) => {
            c.auction_vault = Some(a);
        },
        ConfigUpdate::AuctionDuration(d) => {
            c.auction_duration = Some(d);
        },
        ConfigUpdate::DigicharFactory(a) => {
            c.digichar_factory = Some(a);
        },
        ConfigUpdate::ProtocolAdmin(a) => {
            c.protocol_admin = Some(a);
        },
        ConfigUpdate::ProtocolAdminTaxBps(b) => {
            c.protocol_admin_tax_bps = Some(b);
        },
        ConfigUpdate::CharacterOwnerTaxBps(b) => {
            c.character_owner_tax_bps = Some(b);
        },
        ConfigUpdate::OwnershipCertificate(a) => {
            c.ownership_certificate = Some(a);
        },
    }
    !same
}

/// Whether the byte is an ASCII hexadecimal digit.
pub open spec fn is_hex_digit(c: u8) -> bool {
    (0x30 <= c <= 0x39) || (0x61 <= c <= 0x66) || (0x41 <= c <= 0x46)
}

/// The numeric value of an ASCII hexadecimal digit.
pub open spec fn hex_digit_value(c: u8) -> nat {
    if 0x30 <= c <= 0x39 {
        (c - 0x30) as nat
    } else if 0x61 <= c <= 0x66 {
        (c - 0x61 + 10) as nat
    } else {
        (c - 0x41 + 10) as nat
    }
}

/// The number a big-endian sequence of hexadecimal digits denotes.
pub open spec fn hex_value(s: Seq<u8>) -> nat
    decreases s.len(),
{
    if s.len() == 0 {
        0
    } else {
        hex_value(s.drop_last()) * 16 + hex_digit_value(s.last())
    }
}

/// Sixteen to the given power.
pub open spec fn pow16(n: nat) -> nat
    decreases n,
{
    if n == 0 {
        1nat
    } else {
        16 * pow16((n - 1) as nat)
    }
}

/// A sequence of hexadecimal digits denotes less than sixteen to its length.
proof fn lemma_hex_value_bound(s: Seq<u8>)
    requires
        forall|k: int| 0 <= k < s.len() ==> is_hex_digit(s[k]),
    ensures
        hex_value(s) < pow16(s.len()),
    decreases s.len(),
{
    if s.len() > 0 {
        lemma_hex_value_bound(s.drop_last());
        assert(is_hex_digit(s.last()));
        assert(hex_digit_value(s.last()) <= 15);
    }
}

/// `pow16` grows with its exponent.
proof fn lemma_pow16_mono(a: nat, b: nat)
    requires
        a <= b,
    ensures
        pow16(a) <= pow16(b),
    decreases b,
{
    if a < b {
        lemma_pow16_mono(a, (b - 1) as nat);
        assert(pow16((b - 1) as nat) >= 1) by {
            lemma_pow16_mono(0, (b - 1) as nat);
        }
    }
}

/// The two concrete powers the address parser needs.
proof fn lemma_pow16_values()
    ensures
        pow16(8) == 0x100000000,
        pow16(31) == 0x10000000000000000000000000000000,
{
    reveal_with_fuel(pow16, 33);
}

/// The value of one hexadecimal digit byte, or nothing.
fn hex_digit(c: u8) -> (r: Option<u8>)
    ensures
        r is Some <==> is_hex_digit(c),
        r is Some ==> r->0 as nat == hex_digit_value(c) && r->0 < 16,
{
    if 0x30 <= c && c <= 0x39 {
        Some(c - 0x30)
    } else if 0x61 <= c && c <= 0x66 {
        Some(c - 0x61 + 10)
    } else if 0x41 <= c && c <= 0x46 {
        Some(c - 0x41 + 10)
    } else {
        None
    }
}

/// Parse `s[start..end]` as big-endian hexadecimal; at most 32 digits.
fn parse_hex_u128(s: &[u8], start: usize, end: usize) -> (r: Option<u128>)
    requires
        start <= end <= s@.len(),
        end - start <= 32,
    ensures
        r is Some <==> (forall|k: int| start <= k < end ==> is_hex_digit(s@[k])),
        r is Some ==> r->0 as nat == hex_value(s@.subrange(start as int, end as int)),
{
    let mut acc: u128 = 0;
    let mut i: usize = start;
    while i < end
        invariant
            start <= i <= end <= s@.len(),
            end - start <= 32,
            forall|k: int| start <= k < i ==> is_hex_digit(s@[k]),
            acc as nat == hex_value(s@.subrange(start as int, i as int)),
        decreases end - i,
    {
        let c = s[i];
        match hex_digit(c) {
            None => {
                return None;
            },
            Some(d) => {
                proof {
                    let pre = s@.subrange(start as int, i as int);
                    lemma_hex_value_bound(pre);
                    lemma_pow16_mono(pre.len() as nat, 31);
                    lemma_pow16_values();
                    assert(s@.subrange(start as int, i + 1).drop_last() =~= pre);
                }
                acc = acc * 16 + (d as u128);
            },
        }
        i += 1;
    }
    Some(acc)
}

/// Whether the bytes are a `0x`-prefixed, 40-digit hexadecimal address
/// literal.
pub open spec fn valid_address_literal(s: Seq<u8>) -> bool {
    &&& s.len() == 42
    &&& s[0] == 0x30
    &&& s[1] == 0x78
    &&& forall|k: int| 2 <= k < 42 ==> is_hex_digit(s[k])
}

/// Parse a `0x`-prefixed, 40-digit hexadecimal address literal, as process
/// configuration supplies contract addresses.  The first eight digits become
/// the high word, the remaining thirty-two the low word.
pub fn parse_address(s: &[u8]) -> (r: Result<Address, ConfigValidationError>)
    ensures
        r is Ok <==> valid_address_literal(s@),
        r is Ok ==> r->Ok_0.hi as nat == hex_value(s@.subrange(2, 10)) && r->Ok_0.lo as nat
            == hex_value(s@.subrange(10, 42)),
        r is Err ==> r == Err::<Address, ConfigValidationError>(
            ConfigValidationError::MalformedAddress,
        ),
{
    if s.len() != 42 {
        return Err(ConfigValidationError::MalformedAddress);
    }
    if s[0] != 0x30 || s[1] != 0x78 {
        return Err(ConfigValidationError::MalformedAddress);
    }
    let hi128 = match parse_hex_u128(s, 2, 10) {
        Some(v) => v,
        None => {
            return Err(ConfigValidationError::MalformedAddress);
        },
    };
    let lo = match parse_hex_u128(s, 10, 42) {
        Some(v) => v,
        None => {
            return Err(ConfigValidationError::MalformedAddress);
        },
    };
    proof {
        lemma_hex_value_bound(s@.subrange(2, 10));
        lemma_pow16_values();
    }
    let hi: u32 = hi128 as u32;
    Ok(Address { hi, lo })
}

/// Validate a wrapped-ether contract address.
pub fn set_weth(addr: Address) -> (r: Result<ConfigUpdate, ConfigValidationError>)
    ensures
        addr.spec_is_zero() ==> r == Err::<ConfigUpdate, ConfigValidationError>(
            ConfigValidationError::ZeroAddress,
        ),
        !addr.spec_is_zero() ==> r == Ok::<ConfigUpdate, ConfigValidationError>(
            ConfigUpdate::Weth(addr),
        ),
{
    if addr.is_zero() {
        Err(ConfigValidationError::ZeroAddress)
    } else {
        Ok(ConfigUpdate::Weth(addr))
    }
}

/// Validate the liquidity-lock share, in basis points.
pub fn set_lp_lock_bps(bps: u16) -> (r: Result<ConfigUpdate, ConfigValidationError>)
    ensures
        bps > MAX_BPS ==> r == Err::<ConfigUpdate, ConfigValidationError>(
            ConfigValidationError::BpsOutOfRange,
        ),
        bps <= MAX_BPS ==> r == Ok::<ConfigUpdate, ConfigValidationError>(
            ConfigUpdate::LpLockBps(bps),
        ),
{
    if bps > MAX_BPS {
        Err(ConfigValidationError::BpsOutOfRange)
    } else {
        Ok(ConfigUpdate::LpLockBps(bps))
    }
}

/// Validate a swap-router contract address.
pub fn set_swap_router(addr: Address) -> (r: Result<ConfigUpdate, ConfigValidationError>)
    ensures
        addr.spec_is_zero() ==> r == Err::<ConfigUpdate, ConfigValidationError>(
            ConfigValidationError::ZeroAddress,
        ),
        !addr.spec_is_zero() ==> r == Ok::<ConfigUpdate, ConfigValidationError>(
            ConfigUpdate::SwapRouter(addr),
        ),
{
    if addr.is_zero() {
        Err(ConfigValidationError::ZeroAddress)
    } else {
        Ok(ConfigUpdate::SwapRouter(addr))
    }
}

/// Validate a swap-factory contract address.
pub fn set_swap_factory(addr: Address) -> (r: Result<ConfigUpdate, ConfigValidationError>)
    ensures
        addr.spec_is_zero() ==> r == Err::<ConfigUpdate, ConfigValidationError>(
            ConfigValidationError::ZeroAddress,
        ),
        !addr.spec_is_zero() ==> r == Ok::<ConfigUpdate, ConfigValidationError>(
            ConfigUpdate::SwapFactory(addr),
        ),
{
    if addr.is_zero() {
        Err(ConfigValidationError::ZeroAddress)
    } else {
        Ok(ConfigUpdate::SwapFactory(addr))
    }
}

/// Validate the auction-vault contract address.
pub fn set_auction_vault(addr: Address) -> (r: Result<ConfigUpdate, ConfigValidationError>)
    ensures
        addr.spec_is_zero() ==> r == Err::<ConfigUpdate, ConfigValidationError>(
            ConfigValidationError::ZeroAddress,
        ),
        !addr.spec_is_zero() ==> r == Ok::<ConfigUpdate, ConfigValidationError>(
            ConfigUpdate::AuctionVault(addr),
        ),
{
    if addr.is_zero() {
        Err(ConfigValidationError::ZeroAddress)
    } else {
        Ok(ConfigUpdate::AuctionVault(addr))
    }
}

/// Validate the auction duration, in seconds.
pub fn set_auction_duration(seconds: u64) -> (r: Result<ConfigUpdate, ConfigValidationError>)
    ensures
        seconds == 0 ==> r == Err::<ConfigUpdate, ConfigValidationError>(
            ConfigValidationError::ZeroDuration,
        ),
        seconds > 0 ==> r == Ok::<ConfigUpdate, ConfigValidationError>(
            ConfigUpdate::AuctionDuration(seconds),
        ),
{
    if seconds == 0 {
        Err(ConfigValidationError::ZeroDuration)
    } else {
        Ok(ConfigUpdate::AuctionDuration(seconds))
    }
}

/// Validate the character-factory contract address.
pub fn set_digichar_factory(addr: Address) -> (r: Result<ConfigUpdate, ConfigValidationError>)
    ensures
        addr.spec_is_zero() ==> r == Err::<ConfigUpdate, ConfigValidationError>(
            ConfigValidationError::ZeroAddress,
        ),
        !addr.spec_is_zero() ==> r == Ok::<ConfigUpdate, ConfigValidationError>(
            ConfigUpdate::DigicharFactory(addr),
        ),
{
    if addr.is_zero() {
        Err(ConfigValidationError::ZeroAddress)
    } else {
        Ok(ConfigUpdate::DigicharFactory(addr))
    }
}

/// Validate the protocol administrator's address.
pub fn update_protocol_admin(addr: Address) -> (r: Result<ConfigUpdate, ConfigValidationError>)
    ensures
        addr.spec_is_zero() ==> r == Err::<ConfigUpdate, ConfigValidationError>(
            ConfigValidationError::ZeroAddress,
        ),
        !addr.spec_is_zero() ==> r == Ok::<ConfigUpdate, ConfigValidationError>(
            ConfigUpdate::ProtocolAdmin(addr),
        ),
{
    if addr.is_zero() {
        Err(ConfigValidationError::ZeroAddress)
    } else {
        Ok(ConfigUpdate::ProtocolAdmin(addr))
    }
}

/// Validate the protocol-admin tax share, in basis points.
pub fn set_protocol_admin_tax_bps(bps: u16) -> (r: Result<ConfigUpdate, ConfigValidationError>)
    ensures
        bps > MAX_BPS ==> r == Err::<ConfigUpdate, ConfigValidationError>(
            ConfigValidationError::BpsOutOfRange,
        ),
        bps <= MAX_BPS ==> r == Ok::<ConfigUpdate, ConfigValidationError>(
            ConfigUpdate::ProtocolAdminTaxBps(bps),
        ),
{
    if bps > MAX_BPS {
        Err(ConfigValidationError::BpsOutOfRange)
    } else {
        Ok(ConfigUpdate::ProtocolAdminTaxBps(bps))
    }
}

/// Validate the character-owner tax share, in basis points.
pub fn set_character_owner_tax_bps(bps: u16) -> (r: Result<ConfigUpdate, ConfigValidationError>)
    ensures
        bps > MAX_BPS ==> r == Err::<ConfigUpdate, ConfigValidationError>(
            ConfigValidationError::BpsOutOfRange,
        ),
        bps <= MAX_BPS ==> r == Ok::<ConfigUpdate, ConfigValidationError>(
            ConfigUpdate::CharacterOwnerTaxBps(bps),
        ),
{
    if bps > MAX_BPS {
        Err(ConfigValidationError::BpsOutOfRange)
    } else {
        Ok(ConfigUpdate::CharacterOwnerTaxBps(bps))
    }
}

/// Validate the ownership-certificate contract address.
pub fn set_ownership_certificate(addr: Address) -> (r: Result<ConfigUpdate, ConfigValidationError>)
    ensures
        addr.spec_is_zero() ==> r == Err::<ConfigUpdate, ConfigValidationError>(
            ConfigValidationError::ZeroAddress,
        ),
        !addr.spec_is_zero() ==> r == Ok::<ConfigUpdate, ConfigValidationError>(
            ConfigUpdate::OwnershipCertificate(addr),
        ),
{
    if addr.is_zero() {
        Err(ConfigValidationError::ZeroAddress)
    } else {
        Ok(ConfigUpdate::OwnershipCertificate(addr))
    }
}

} // verus!
