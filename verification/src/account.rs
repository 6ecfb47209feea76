//! Minecraft accounts as the credentials store keeps them.
use vstd::prelude::*;
use vstd::arithmetic::power::pow;
use crate::updater::hex_digit;

verus! {

/// How an account signs in. The launcher only creates offline accounts.
#[derive(Clone, Copy, Debug, PartialEq, Eq)]
pub enum AccountKind {
    Offline,
}

/// A Minecraft account: its UUID (as the integer whose big-endian bytes the
/// UUID is), user name, tokens, and the UNIX time its tokens expire at.
#[derive(Clone, Debug)]
pub struct MinecraftAccount {
    pub id: u128,
    pub username: String,
    pub access_token: String,
    pub refresh_token: String,
    pub expires: i64,
    pub kind: AccountKind,
}

pub struct MinecraftAccountView {
    pub id: u128,
    pub username: Seq<char>,
    pub access_token: Seq<char>,
    pub refresh_token: Seq<char>,
    pub expires: i64,
    pub kind: AccountKind,
}

impl View for MinecraftAccount {
    type V = MinecraftAccountView;

    open spec fn view(&self) -> MinecraftAccountView {
        MinecraftAccountView {
            id: self.id,
            username: self.username@,
            access_token: self.access_token@,
            refresh_token: self.refresh_token@,
            expires: self.expires,
            kind: self.kind,
        }
    }
}

/// The columns of a row of the `accounts` table: the 16 bytes of the id,
/// the user name, the tokens (which may be `NULL`) and the expiry time in
/// UNIX seconds.
#[derive(Clone, Debug)]
pub struct AccountRow {
    pub id: Vec<u8>,
    pub username: String,
    pub access_token: Option<String>,
    pub refresh_token: Option<String>,
    pub expires: i64,
}

/// The integer whose big-endian bytes are `b` (`u128::from_be_bytes`, which
/// is what `Uuid::from_bytes(..).as_u128()` computes).
pub open spec fn big_endian_value(b: Seq<u8>) -> int
    decreases b.len(),
{
    if b.len() == 0 {
        0
    } else {
        big_endian_value(b.drop_last()) * 256 + b.last()
    }
}

spec fn pow256(n: nat) -> int
    decreases n,
{
    if n == 0 {
        1
    } else {
        256 * pow256((n - 1) as nat)
    }
}

proof fn lemma_pow256_mono(i: nat, j: nat)
    requires
        i <= j,
    ensures
        1 <= pow256(i) <= pow256(j),
    decreases j,
{
    if i < j {
        lemma_pow256_mono(i, (j - 1) as nat);
    } else if j > 0 {
        lemma_pow256_mono((j - 1) as nat, (j - 1) as nat);
    }
}

proof fn lemma_pow256_16()
    ensures
        pow256(16) == 0x1_0000_0000_0000_0000_0000_0000_0000_0000int,
{
    reveal_with_fuel(pow256, 17);
}

/// The id that a 16-byte UUID column holds.
pub fn uuid_from_bytes(b: &Vec<u8>) -> (id: u128)
    requires
        b.len() == 16,
    ensures
        id as int == big_endian_value(b@),
{
    let mut acc: u128 = 0;
    let mut i: usize = 0;
    proof {
        lemma_pow256_16();
    }
    while i < 16
        invariant
            b.len() == 16,
            i <= 16,
            acc as int == big_endian_value(b@.take(i as int)),
            big_endian_value(b@.take(i as int)) < pow256(i as nat),
            pow256(16) == 0x1_0000_0000_0000_0000_0000_0000_0000_0000int,
        decreases 16 - i,
    {
        let ghost prefix = b@.take(i + 1);
        assert(prefix.drop_last() == b@.take(i as int));
        assert(prefix.last() == b@[i as int]);
        proof {
            lemma_pow256_mono((i + 1) as nat, 16);
        }
        acc = acc * 256 + b[i] as u128;
        i = i + 1;
    }
    assert(b@.take(16) == b@);
    acc
}

/// The earliest UNIX time chrono represents:
/// `DateTime::<Utc>::MIN_UTC.timestamp()`, midnight of `NaiveDate::MIN`.
pub open spec fn chrono_min_timestamp() -> int {
    -8_334_601_228_800
}

/// The latest whole-second UNIX time chrono represents:
/// `DateTime::<Utc>::MAX_UTC.timestamp()`, 23:59:59 on `NaiveDate::MAX`.
pub open spec fn chrono_max_timestamp() -> int {
    8_210_266_876_799
}

/// Whether `chrono::DateTime::<Utc>::from_timestamp(secs, 0)` accepts `secs`:
/// exactly when it lies in chrono's date range.
pub open spec fn chrono_accepts_timestamp(secs: i64) -> bool {
    chrono_min_timestamp() <= secs <= chrono_max_timestamp()
}

/// Calls `chrono::DateTime::from_timestamp(secs, 0)` and reads the instant
/// back with `timestamp()`. chrono refuses exactly the seconds outside
/// `MIN_UTC..=MAX_UTC` (whose timestamps are the two constants above), and
/// documents that the two calls round-trip, which is the second clause.
#[verifier::external_body]
fn utc_timestamp(secs: i64) -> (r: Option<i64>)
    ensures
        r is Some <==> chrono_accepts_timestamp(secs),
        r matches Some(t) ==> t == secs,
{
    match chrono::DateTime::from_timestamp(secs, 0) {
        Some(d) => Some(d.timestamp()),
        None => None,
    }
}

/// The 32 lowercase hex digits of an id, most significant first.
pub open spec fn id_hex_digits(id: u128) -> Seq<char> {
    Seq::new(32, |k: int| hex_digit((id as int / pow(16, (31 - k) as nat)) % 16))
}

/// The hyphenated form of a UUID: its hex digits in groups of 8-4-4-4-12.
pub open spec fn uuid_hyphenated(id: u128) -> Seq<char> {
    let h = id_hex_digits(id);
    h.subrange(0, 8) + seq!['-'] + h.subrange(8, 12) + seq!['-'] + h.subrange(12, 16) + seq!['-']
        + h.subrange(16, 20) + seq!['-'] + h.subrange(20, 32)
}

/// Calls `uuid::Uuid::from_u128(id).to_string()`. `from_u128` takes the id as
/// the big-endian value of the UUID's bytes, and uuid's `Display` writes the
/// hyphenated lowercase form (`Display` defers to `LowerHex`, which encodes
/// `as_hyphenated()` in lower case).
#[verifier::external_body]
fn uuid_string(id: u128) -> (s: String)
    ensures
        s@ == uuid_hyphenated(id),
{
    uuid::Uuid::from_u128(id).to_string()
}

/// `Option::unwrap_or_default` on a string column.
fn text_or_empty(s: &Option<String>) -> (r: String)
    ensures
        r@ == match s {
            Some(t) => t@,
            None => Seq::<char>::empty(),
        },
{
    match s {
        Some(t) => t.clone(),
        None => String::new(),
    }
}

/// The account a row holds, when the clock reads `now`: the expiry falls
/// back to `now` when chrono cannot represent the stored one.
pub open spec fn spec_account_from_row(row: AccountRow, now: i64) -> MinecraftAccountView {
    MinecraftAccountView {
        id: big_endian_value(row.id@) as u128,
        username: row.username@,
        access_token: match row.access_token {
            Some(t) => t@,
            None => Seq::empty(),
        },
        refresh_token: match row.refresh_token {
            Some(t) => t@,
            None => Seq::empty(),
        },
        expires: if chrono_accepts_timestamp(row.expires) {
            row.expires
        } else {
            now
        },
        kind: AccountKind::Offline,
    }
}

/// Builds the account a row holds, with `now` as the current time.
pub fn account_from_row_at(row: &AccountRow, now: i64) -> (a: MinecraftAccount)
    requires
        row.id.len() == 16,
    ensures
        a@ == spec_account_from_row(*row, now),
{
    let expires = match utc_timestamp(row.expires) {
        Some(t) => t,
        None => now,
    };
    MinecraftAccount {
        id: uuid_from_bytes(&row.id),
        username: row.username.clone(),
        access_token: text_or_empty(&row.access_token),
        refresh_token: text_or_empty(&row.refresh_token),
        expires,
        kind: AccountKind::Offline,
    }
}

/// The account keeps what the row stores: its id is the big-endian value of
/// the id bytes, its user name and tokens are the row's (a missing token is
/// empty), it expires when the row says unless chrono cannot represent that
/// time, and it is an offline account.
pub proof fn lemma_account_keeps_row(row: AccountRow, now: i64)
    ensures
        ({
            let a = spec_account_from_row(row, now);
            &&& (row.id@.len() == 16 ==> a.id as int == big_endian_value(row.id@))
            &&& a.username == row.username@
            &&& (row.access_token matches Some(t) ==> a.access_token == t@)
            &&& (row.access_token is None ==> a.access_token.len() == 0)
            &&& (row.refresh_token matches Some(t) ==> a.refresh_token == t@)
            &&& (row.refresh_token is None ==> a.refresh_token.len() == 0)
            &&& (chrono_min_timestamp() <= row.expires <= chrono_max_timestamp() ==> a.expires
                == row.expires)
            &&& (!(chrono_min_timestamp() <= row.expires <= chrono_max_timestamp()) ==> a.expires
                == now)
            &&& a.kind == AccountKind::Offline
        }),
{
    if row.id@.len() == 16 {
        lemma_big_endian_bound(row.id@);
        lemma_pow256_16();
    }
}

proof fn lemma_big_endian_bound(b: Seq<u8>)
    ensures
        0 <= big_endian_value(b) < pow256(b.len()),
    decreases b.len(),
{
    if b.len() > 0 {
        lemma_big_endian_bound(b.drop_last());
        assert(pow256(b.len()) == 256 * pow256((b.len() - 1) as nat));
    }
}

impl MinecraftAccount {
    /// The account's UUID as text, as the views show it
    /// (`67e55044-10b1-426f-9247-bb680e5fe0c8`).
    pub fn id_text(&self) -> (s: String)
        ensures
            s@ == uuid_hyphenated(self.id),
    {
        uuid_string(self.id)
    }
}

} // verus!
