//! One-time-password computation and the tick scheduler: decides once per
//! thirty-second epoch when every account's code is recomputed, and reports
//! how much of the current epoch remains.

use vstd::prelude::*;

use crate::settings::{Account, Algorithm};

verus! {

/// Length of one code epoch, in milliseconds.
pub const EPOCH_MILLIS: u64 = 30000;

/// A tick this far into a fresh epoch counts as a roll-over and triggers a
/// recomputation of every code, in milliseconds.
pub const ROLLOVER_MILLIS: u64 = 2000;

/// Ten to the `n`th power.
pub open spec fn pow10(n: nat) -> nat
    decreases n,
{
    if n == 0 {
        1
    } else {
        10 * pow10((n - 1) as nat)
    }
}

/// The character for one decimal digit.
pub open spec fn digit_char(d: nat) -> char {
    if d == 0 {
        '0'
    } else if d == 1 {
        '1'
    } else if d == 2 {
        '2'
    } else if d == 3 {
        '3'
    } else if d == 4 {
        '4'
    } else if d == 5 {
        '5'
    } else if d == 6 {
        '6'
    } else if d == 7 {
        '7'
    } else if d == 8 {
        '8'
    } else {
        '9'
    }
}

/// `v` written in decimal over exactly `width` characters, left-padded with
/// zeros; the low digit stands last. Digits of `v` beyond `width` are dropped,
/// which never happens for `v < pow10(width)`.
pub open spec fn decimal_padded(v: nat, width: nat) -> Seq<char>
    decreases width,
{
    if width == 0 {
        Seq::empty()
    } else {
        decimal_padded(v / 10, (width - 1) as nat).push(digit_char(v % 10))
    }
}

/// What the HMAC-SHA1 dynamic truncation of RFC 4226 yields for a secret and a
/// step counter: the 31-bit integer that `totp_lite::totp_custom::<Sha1>`
/// derives before it is reduced to the requested digit count.
pub uninterp spec fn sha1_hotp(secret: Seq<u8>, counter: u64) -> u64;

/// The code text an account's secret yields with the SHA-1 algorithm at a Unix
/// time: the truncated HMAC value of the thirty-second step counter, reduced
/// modulo ten to the digit count, written with exactly that many digits.
pub open spec fn totp_sha1_spec(secret: Seq<u8>, digits: u32, time: u64) -> Seq<char> {
    decimal_padded((sha1_hotp(secret, time / 30) as nat) % pow10(digits as nat), digits as nat)
}

/// The code an account is owed at a Unix time, dispatched on its algorithm.
pub open spec fn account_code_spec(a: Account, time: u64) -> Seq<char> {
    match a.algorithm {
        Algorithm::Sha1 => totp_sha1_spec(a.secret.1@, a.length, time),
    }
}

/// One of the ten decimal digit characters.
pub open spec fn is_decimal_digit(c: char) -> bool {
    c == '0' || c == '1' || c == '2' || c == '3' || c == '4' || c == '5' || c == '6' || c == '7'
        || c == '8' || c == '9'
}

/// The decimal writing of a value over a fixed width is that wide, and every
/// character of it is a decimal digit.
pub proof fn lemma_decimal_padded_shape(v: nat, width: nat)
    ensures
        decimal_padded(v, width).len() == width,
        forall|i: int| 0 <= i < width ==> is_decimal_digit(#[trigger] decimal_padded(v, width)[i]),
    decreases width,
{
    if width > 0 {
        lemma_decimal_padded_shape(v / 10, (width - 1) as nat);
    }
}

/// A code is stable inside its epoch: two Unix times that fall in the same
/// thirty-second step-aligned window give an account the same code text. Two
/// calls within one second fall under this with the two times equal.
pub proof fn lemma_code_stable_within_step(a: Account, t1: u64, t2: u64)
    requires
        t1 / 30 == t2 / 30,
    ensures
        account_code_spec(a, t1) == account_code_spec(a, t2),
{
}

/// Every code an account is owed has exactly as many characters as the
/// account's digit length, and each of them is a decimal digit; short values
/// come out left-padded with zeros.
pub proof fn lemma_code_shape(a: Account, time: u64)
    requires
        a.wf(),
    ensures
        account_code_spec(a, time).len() == a.length,
        forall|i: int|
            0 <= i < a.length ==> is_decimal_digit(#[trigger] account_code_spec(a, time)[i]),
{
    match a.algorithm {
        Algorithm::Sha1 => {
            lemma_decimal_padded_shape(
                (sha1_hotp(a.secret.1@, time / 30) as nat) % pow10(a.length as nat),
                a.length as nat,
            );
        },
    }
}

/// Relies on `totp_lite::totp_custom::<Sha1>` with its default step of thirty
/// seconds: the result is the decimal form, in exactly `digits` characters, of
/// the truncated HMAC-SHA1 value of `time / 30`, reduced modulo ten to the
/// `digits`th power. Fewer than one or more than nineteen digits are left out:
/// there the callee's power of ten leaves sixty-four bits.
#[verifier::external_body]
fn totp_sha1_code(secret: &Vec<u8>, digits: u32, time: u64) -> (r: String)
    requires
        1 <= digits <= 19,
    ensures
        r@ == decimal_padded(
            (sha1_hotp(secret@, time / 30) as nat) % pow10(digits as nat),
            digits as nat,
        ),
{
    totp_lite::totp_custom::<totp_lite::Sha1>(totp_lite::DEFAULT_STEP, digits, secret, time)
}

/// Relies on `chrono::Local::now` and `DateTime::timestamp_millis`: the
/// wall clock, as milliseconds since the Unix epoch. Nothing is promised of
/// the value; callers state what holds whatever the clock reads.
#[verifier::external_body]
fn now_unix_millis() -> (r: i64) {
    chrono::Local::now().timestamp_millis()
}

/// The wall clock as unsigned milliseconds since the Unix epoch; a clock set
/// before 1970 reads as the epoch itself.
fn now_millis_clamped() -> u64 {
    let now = now_unix_millis();
    if now < 0 {
        0
    } else {
        now as u64
    }
}

/// Computes the code an account is owed at the given Unix time (in seconds).
pub fn get_otp_at(account: &Account, time: u64) -> (r: String)
    requires
        account.wf(),
    ensures
        r@ == account_code_spec(*account, time),
{
    match account.algorithm {
        Algorithm::Sha1 => totp_sha1_code(&account.secret.1, account.length, time),
    }
}

/// Computes the code an account is owed now, by the wall clock.
pub fn get_otp(account: &Account) -> (r: String)
    requires
        account.wf(),
    ensures
        exists|t: u64| r@ == account_code_spec(*account, t),
{
    let time = now_millis_clamped() / 1000;
    let r = get_otp_at(account, time);
    proof {
        assert(r@ == account_code_spec(*account, time));
    }
    r
}

/// The account after a recomputation at `time`: the code is the one owed at
/// `time`, everything else stands as it was.
pub open spec fn recoded_at(before: Account, after: Account, time: u64) -> bool {
    &&& after.secret == before.secret
    &&& after.algorithm == before.algorithm
    &&& after.length == before.length
    &&& after.code@ == account_code_spec(before, time)
}

/// Stores into the account the code it is owed at the given Unix time.
pub fn set_otp_at(account: &mut Account, time: u64)
    requires
        old(account).wf(),
    ensures
        recoded_at(*old(account), *final(account), time),
{
    account.code = get_otp_at(account, time);
}

/// Stores into the account the code it is owed now, by the wall clock.
pub fn set_otp(account: &mut Account)
    requires
        old(account).wf(),
    ensures
        exists|t: u64| recoded_at(*old(account), *final(account), t),
{
    let time = now_millis_clamped() / 1000;
    set_otp_at(account, time);
    proof {
        assert(recoded_at(*old(account), *account, time));
    }
}

/// Every account is well formed.
pub open spec fn all_wf(accounts: Seq<(String, Account)>) -> bool {
    forall|i: int| 0 <= i < accounts.len() ==> (#[trigger] accounts[i]).1.wf()
}

/// The account list after a recomputation at `time`: same names in the same
/// order, and every account recoded for `time`.
pub open spec fn all_recoded_at(
    before: Seq<(String, Account)>,
    after: Seq<(String, Account)>,
    time: u64,
) -> bool {
    &&& after.len() == before.len()
    &&& forall|i: int|
        0 <= i < before.len() ==> (#[trigger] after[i]).0 == before[i].0 && recoded_at(
            before[i].1,
            after[i].1,
            time,
        )
}

/// Recomputes every account's code for the given Unix time.
pub fn update_otps_at(accounts: &mut Vec<(String, Account)>, time: u64)
    requires
        all_wf(old(accounts)@),
    ensures
        all_recoded_at(old(accounts)@, final(accounts)@, time),
{
    let n = accounts.len();
    let mut i: usize = 0;
    while i < n
        invariant
            n == accounts@.len(),
            n == old(accounts)@.len(),
            i <= n,
            all_wf(old(accounts)@),
            forall|j: int| i <= j < n ==> accounts@[j] == old(accounts)@[j],
            forall|j: int|
                0 <= j < i ==> (#[trigger] accounts@[j]).0 == old(accounts)@[j].0 && recoded_at(
                    old(accounts)@[j].1,
                    accounts@[j].1,
                    time,
                ),
        decreases n - i,
    {
        let entry = &mut accounts[i];
        set_otp_at(&mut entry.1, time);
        i += 1;
    }
}

/// Recomputes every account's code for the wall clock's present time; run once
/// at startup so the first frame is never blank.
pub fn update_otps(accounts: &mut Vec<(String, Account)>)
    requires
        all_wf(old(accounts)@),
    ensures
        exists|t: u64| all_recoded_at(old(accounts)@, final(accounts)@, t),
{
    let time = now_millis_clamped() / 1000;
    update_otps_at(accounts, time);
    proof {
        assert(all_recoded_at(old(accounts)@, accounts@, time));
    }
}

/// One scheduler tick at a given wall-clock reading, in milliseconds since the
/// Unix epoch. Returns the milliseconds elapsed inside the current
/// thirty-second epoch and the milliseconds it still has to run; when the
/// epoch has just rolled over, first recomputes every account's code.
pub fn maybe_update_otps_at(accounts: &mut Vec<(String, Account)>, now_ms: u64) -> (r: (u64, u64))
    requires
        all_wf(old(accounts)@),
    ensures
        r.0 == now_ms % EPOCH_MILLIS,
        r.1 == EPOCH_MILLIS - r.0,
        r.0 < ROLLOVER_MILLIS ==> all_recoded_at(old(accounts)@, final(accounts)@, now_ms / 1000),
        r.0 >= ROLLOVER_MILLIS ==> final(accounts)@ == old(accounts)@,
{
    let ms_into_epoch = now_ms % EPOCH_MILLIS;
    if ms_into_epoch < ROLLOVER_MILLIS {
        update_otps_at(accounts, now_ms / 1000);
    }
    (ms_into_epoch, EPOCH_MILLIS - ms_into_epoch)
}

/// One scheduler tick at the wall clock's present reading: recomputes the
/// codes when a fresh epoch has begun, and reports the position inside the
/// epoch, in milliseconds elapsed and milliseconds remaining.
pub fn maybe_update_otps(accounts: &mut Vec<(String, Account)>) -> (r: (u64, u64))
    requires
        all_wf(old(accounts)@),
    ensures
        r.0 < EPOCH_MILLIS,
        r.1 == EPOCH_MILLIS - r.0,
        r.0 < ROLLOVER_MILLIS ==> exists|t: u64|
            all_recoded_at(old(accounts)@, final(accounts)@, t),
        r.0 >= ROLLOVER_MILLIS ==> final(accounts)@ == old(accounts)@,
{
    let now_ms = now_millis_clamped();
    let r = maybe_update_otps_at(accounts, now_ms);
    proof {
        if r.0 < ROLLOVER_MILLIS {
            assert(all_recoded_at(old(accounts)@, accounts@, now_ms / 1000));
        }
    }
    r
}

} // verus!
