//! A model of the local keystore as the workflow reads it: a table from
//! mnemonic phrases to account addresses. Key derivation itself is the
//! collaborator's work; the table records what each phrase derived to, and
//! importing a phrase already present returns the recorded address unchanged,
//! which makes import idempotent.

use crate::ident::Address;
use crate::ident::ID_LEN;
use vstd::prelude::*;
use vstd::string::StringExecFns;

verus! {

/// One recorded key: a mnemonic phrase and the address derived from it.
pub struct KeyEntry {
    pub mnemonic: String,
    pub address: Address,
}

/// The spec view of one recorded key.
pub struct KeyEntryModel {
    pub mnemonic: Seq<char>,
    pub address: Seq<u8>,
}

impl View for KeyEntry {
    type V = KeyEntryModel;

    open spec fn view(&self) -> KeyEntryModel {
        KeyEntryModel { mnemonic: self.mnemonic@, address: self.address.bytes@ }
    }
}

/// The address recorded for a mnemonic, if any.
pub open spec fn lookup_spec(entries: Seq<KeyEntryModel>, mnemonic: Seq<char>) -> Option<Seq<u8>>
    decreases entries.len(),
{
    if entries.len() == 0 {
        None
    } else if entries[0].mnemonic == mnemonic {
        Some(entries[0].address)
    } else {
        lookup_spec(entries.skip(1), mnemonic)
    }
}

/// What importing a mnemonic does to the table and returns: the recorded
/// address if the mnemonic is present, otherwise the newly derived one, then
/// recorded.
pub open spec fn import_spec(
    entries: Seq<KeyEntryModel>,
    mnemonic: Seq<char>,
    derived: Seq<u8>,
) -> (Seq<KeyEntryModel>, Seq<u8>) {
    match lookup_spec(entries, mnemonic) {
        Some(a) => (entries, a),
        None => (entries + seq![KeyEntryModel { mnemonic, address: derived }], derived),
    }
}

/// Importing the same mnemonic a second time returns the address the first
/// import returned, whatever address the collaborator derives the second time.
pub proof fn lemma_import_idempotent(
    entries: Seq<KeyEntryModel>,
    mnemonic: Seq<char>,
    d1: Seq<u8>,
    d2: Seq<u8>,
)
    ensures
        import_spec(import_spec(entries, mnemonic, d1).0, mnemonic, d2).1 == import_spec(
            entries,
            mnemonic,
            d1,
        ).1,
{
    let (after, first) = import_spec(entries, mnemonic, d1);
    if lookup_spec(entries, mnemonic) is None {
        lemma_lookup_append_absent(entries, mnemonic, d1);
    }
}

/// Looking up a mnemonic just appended finds the appended address.
proof fn lemma_lookup_append_absent(entries: Seq<KeyEntryModel>, mnemonic: Seq<char>, d: Seq<u8>)
    requires
        lookup_spec(entries, mnemonic) is None,
    ensures
        lookup_spec(entries + seq![KeyEntryModel { mnemonic, address: d }], mnemonic) == Some(d),
    decreases entries.len(),
{
    let appended = entries + seq![KeyEntryModel { mnemonic, address: d }];
    if entries.len() == 0 {
        assert(appended[0] == KeyEntryModel { mnemonic, address: d });
    } else {
        assert(appended.skip(1) =~= entries.skip(1) + seq![
            KeyEntryModel { mnemonic, address: d },
        ]);
        lemma_lookup_append_absent(entries.skip(1), mnemonic, d);
    }
}

/// The keystore table as this process has observed it.
pub struct KeystoreTable {
    pub entries: Vec<KeyEntry>,
}

impl View for KeystoreTable {
    type V = Seq<KeyEntryModel>;

    open spec fn view(&self) -> Seq<KeyEntryModel> {
        self.entries@.map_values(|e: KeyEntry| e@)
    }
}

impl KeystoreTable {
    /// Every recorded address is well-formed.
    pub open spec fn wf(&self) -> bool {
        forall|i: int| 0 <= i < self@.len() ==> (#[trigger] self@[i]).address.len() == ID_LEN
    }

    pub fn new() -> (r: KeystoreTable)
        ensures
            r.wf(),
            r@ == Seq::<KeyEntryModel>::empty(),
    {
        let r = KeystoreTable { entries: Vec::new() };
        proof {
            assert(r@ =~= Seq::<KeyEntryModel>::empty());
        }
        r
    }

    /// Import a mnemonic for which the collaborator derived `derived`:
    /// returns the recorded address if the mnemonic is already present
    /// (leaving the table unchanged), else records and returns `derived`.
    pub fn import_from_mnemonic(&mut self, mnemonic: &str, derived: Address) -> (r: Address)
        requires
            old(self).wf(),
            derived.wf(),
        ensures
            final(self).wf(),
            r.wf(),
            final(self)@ == import_spec(old(self)@, mnemonic@, derived.bytes@).0,
            r.bytes@ == import_spec(old(self)@, mnemonic@, derived.bytes@).1,
    {
        let ghost entries = self@;
        proof {
            assert(entries.skip(0) =~= entries);
        }
        let n = self.entries.len();
        let mut i: usize = 0;
        while i < n
            invariant
                n == entries.len(),
                i <= n,
                self@ == entries,
                self.wf(),
                lookup_spec(entries, mnemonic@) == lookup_spec(entries.skip(i as int), mnemonic@),
                forall|k: int| 0 <= k < i ==> (#[trigger] entries[k]).mnemonic != mnemonic@,
            decreases n - i,
        {
            let hit = string_eq_str(&self.entries[i].mnemonic, mnemonic);
            proof {
                assert(entries.skip(i as int)[0] == entries[i as int]);
                assert(entries.skip(i as int).skip(1) =~= entries.skip(i as int + 1));
            }
            if hit {
                let r = self.entries[i].address.clone_addr();
                return r;
            }
            i = i + 1;
        }
        proof {
            assert(entries.skip(n as int) =~= Seq::<KeyEntryModel>::empty());
        }
        let entry = KeyEntry { mnemonic: str_to_string(mnemonic), address: derived.clone_addr() };
        self.entries.push(entry);
        proof {
            assert(self@ =~= entries + seq![
                KeyEntryModel { mnemonic: mnemonic@, address: derived.bytes@ },
            ]);
        }
        derived
    }
}

/// Whether a string equals a string slice, character for character.
fn string_eq_str(a: &String, b: &str) -> (r: bool)
    ensures
        r == (a@ == b@),
{
    let b_owned = str_to_string(b);
    a.eq(&b_owned)
}

/// An owned copy of a string slice.
fn str_to_string(s: &str) -> (r: String)
    ensures
        r@ == s@,
{
    String::from_str(s)
}

} // verus!
