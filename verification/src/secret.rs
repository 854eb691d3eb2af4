//! Persisting a generated identity's secret: the file's contents (the mnemonic
//! and the address, newline-separated) and its name, which embeds the current
//! wall-clock milliseconds and a per-process counter so that names of files
//! written by concurrent workflow attempts never collide.

use crate::dec::DEC_WIDTH;
use crate::dec::dec_fix;
use crate::dec::lemma_dec_fix_injective;
use crate::dec::lemma_dec_fix_value;
use crate::dec::lemma_u64_fits_dec_width;
use crate::dec::push_dec_fix;
use crate::ident::Address;
use crate::ident::ID_LEN;
use crate::ident::ascii_to_string;
use crate::ident::bytes_of_id_text;
use crate::ident::chars_of_ascii;
use crate::ident::id_text_of;
use crate::ident::is_hex_char;
use crate::ident::is_id_text;
use crate::ident::lemma_id_text_round_trip;
use vstd::prelude::*;
use vstd::string::StringExecFns;

verus! {

/// The name of the secret file written for counter value `counter` at wall
/// time `millis`: both numbers rendered at fixed width inside a fixed frame.
pub open spec fn secret_name_spec(millis: u64, counter: u64) -> Seq<char> {
    "address/data"@ + dec_fix(millis as nat, DEC_WIDTH as nat) + seq!['_'] + dec_fix(
        counter as nat,
        DEC_WIDTH as nat,
    ) + ".txt"@
}

/// The contents of the secret file: the mnemonic, a newline, then the
/// address's canonical text. Exactly two lines.
pub open spec fn secret_contents_spec(mnemonic: Seq<char>, address: Seq<u8>) -> Seq<char> {
    mnemonic + seq!['\n'] + id_text_of(address)
}

/// A per-process counter; each drawn value is used for one secret file name.
pub struct SecretCounter {
    pub next: u64,
}

impl SecretCounter {
    pub fn new() -> (r: SecretCounter)
        ensures
            r.next == 0,
    {
        SecretCounter { next: 0 }
    }

    /// Draw a fresh counter value: no two draws return the same value.
    pub fn fresh(&mut self) -> (r: u64)
        requires
            old(self).next < u64::MAX,
        ensures
            r == old(self).next,
            final(self).next == old(self).next + 1,
    {
        let r = self.next;
        self.next = self.next + 1;
        r
    }
}

/// A secret file ready to be written: its relative path and its full contents.
pub struct SecretFile {
    pub name: String,
    pub contents: String,
}

/// Relies on chrono's `Local::now` and `DateTime::timestamp_millis`: the
/// current wall-clock time in non-leap milliseconds since the Unix epoch.
/// Nothing is assumed of the value.
#[verifier::external_body]
fn now_millis_raw() -> i64 {
    chrono::Local::now().timestamp_millis()
}

/// The current wall-clock time in milliseconds, clamped to zero for clocks
/// set before the epoch. Nothing is known of the value.
fn current_millis() -> u64 {
    let t = now_millis_raw();
    if t < 0 {
        0
    } else {
        t as u64
    }
}

/// Render the name of a secret file for the given time and counter value.
pub fn secret_file_name(millis: u64, counter: u64) -> (r: String)
    ensures
        r@ == secret_name_spec(millis, counter),
{
    let mut digits: Vec<u8> = Vec::new();
    push_dec_fix(millis, DEC_WIDTH, &mut digits);
    proof {
        lemma_dec_fix_value(millis as nat, DEC_WIDTH as nat);
        assert(chars_of_ascii(digits@) =~= dec_fix(millis as nat, DEC_WIDTH as nat));
    }
    let millis_text = ascii_to_string(digits);
    let mut digits2: Vec<u8> = Vec::new();
    push_dec_fix(counter, DEC_WIDTH, &mut digits2);
    proof {
        lemma_dec_fix_value(counter as nat, DEC_WIDTH as nat);
        assert(chars_of_ascii(digits2@) =~= dec_fix(counter as nat, DEC_WIDTH as nat));
    }
    let counter_text = ascii_to_string(digits2);
    let mut name = String::from_str("address/data");
    name.append(millis_text.as_str());
    name.append("_");
    name.append(counter_text.as_str());
    name.append(".txt");
    proof {
        reveal_strlit("_");
        assert(name@ =~= secret_name_spec(millis, counter));
    }
    name
}

/// Render the contents of the secret file for a generated identity.
pub fn secret_file_contents(mnemonic: &str, address: &Address) -> (r: String)
    requires
        address.wf(),
        forall|i: int| 0 <= i < mnemonic@.len() ==> mnemonic@[i] != '\n',
    ensures
        r@ == secret_contents_spec(mnemonic@, address.bytes@),
{
    let mut contents = String::from_str(mnemonic);
    contents.append("\n");
    let text = address.to_text();
    contents.append(text.as_str());
    proof {
        reveal_strlit("\n");
        assert(contents@ =~= secret_contents_spec(mnemonic@, address.bytes@));
    }
    contents
}

/// Plan the secret file for a generated identity: draw a fresh counter value,
/// read the clock, and render name and contents. The name is built from the
/// drawn counter value, so names planned through one counter never collide.
pub fn secret_file(mnemonic: &str, address: &Address, counter: &mut SecretCounter) -> (r:
    SecretFile)
    requires
        address.wf(),
        old(counter).next < u64::MAX,
        forall|i: int| 0 <= i < mnemonic@.len() ==> mnemonic@[i] != '\n',
    ensures
        exists|m: u64| r.name@ == secret_name_spec(m, old(counter).next),
        r.contents@ == secret_contents_spec(mnemonic@, address.bytes@),
        final(counter).next == old(counter).next + 1,
{
    let seq_no = counter.fresh();
    let millis = current_millis();
    let name = secret_file_name(millis, seq_no);
    let contents = secret_file_contents(mnemonic, address);
    SecretFile { name, contents }
}

/// Names built from distinct counter values are distinct, whatever the clock
/// read for each: the collision-avoidance law for concurrently written
/// secret files.
pub proof fn lemma_secret_names_distinct(m1: u64, c1: u64, m2: u64, c2: u64)
    requires
        c1 != c2,
    ensures
        secret_name_spec(m1, c1) != secret_name_spec(m2, c2),
{
    reveal_strlit("address/data");
    reveal_strlit(".txt");
    let n1 = secret_name_spec(m1, c1);
    let n2 = secret_name_spec(m2, c2);
    lemma_dec_fix_value(m1 as nat, DEC_WIDTH as nat);
    lemma_dec_fix_value(m2 as nat, DEC_WIDTH as nat);
    lemma_dec_fix_value(c1 as nat, DEC_WIDTH as nat);
    lemma_dec_fix_value(c2 as nat, DEC_WIDTH as nat);
    if n1 == n2 {
        assert(n1.subrange(33, 53) =~= dec_fix(c1 as nat, DEC_WIDTH as nat));
        assert(n2.subrange(33, 53) =~= dec_fix(c2 as nat, DEC_WIDTH as nat));
        lemma_u64_fits_dec_width(c1);
        lemma_u64_fits_dec_width(c2);
        lemma_dec_fix_injective(c1 as nat, c2 as nat, DEC_WIDTH as nat);
    }
}

/// The round-trip law for secret files: the contents hold exactly two lines
/// (one newline character, at the end of the mnemonic), the first line is the
/// mnemonic, and the second line parses back to the very address that was
/// persisted.
pub proof fn lemma_secret_contents_round_trip(mnemonic: Seq<char>, address: Seq<u8>)
    requires
        address.len() == ID_LEN,
        forall|i: int| 0 <= i < mnemonic.len() ==> mnemonic[i] != '\n',
    ensures
        ({
            let c = secret_contents_spec(mnemonic, address);
            &&& c.len() == mnemonic.len() + 1 + 2 + 2 * ID_LEN
            &&& c[mnemonic.len() as int] == '\n'
            &&& forall|j: int|
                0 <= j < c.len() && j != mnemonic.len() ==> #[trigger] c[j] != '\n'
            &&& c.take(mnemonic.len() as int) == mnemonic
            &&& is_id_text(c.skip(mnemonic.len() as int + 1))
            &&& bytes_of_id_text(c.skip(mnemonic.len() as int + 1)) == address
        }),
{
    let c = secret_contents_spec(mnemonic, address);
    let text = id_text_of(address);
    lemma_id_text_round_trip(address);
    assert(c.take(mnemonic.len() as int) =~= mnemonic);
    assert(c.skip(mnemonic.len() as int + 1) =~= text);
    assert forall|j: int| 0 <= j < c.len() && j != mnemonic.len() implies #[trigger] c[j]
        != '\n' by {
        if j < mnemonic.len() {
            assert(c[j] == mnemonic[j]);
        } else {
            let k = j - (mnemonic.len() + 1);
            assert(c[j] == text[k]);
            if k >= 2 {
                assert(is_hex_char(text[k]));
            }
        }
    }
}

} // verus!
