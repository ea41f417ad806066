//! Append-only log whose entries are signed and linked by chain digests.

use vstd::prelude::*;

use crate::bytes::{be64, copy_bytes, push_be64};
use crate::crypto::{
    chain_digest, chain_hash, ed25519_accepts, ed25519_public_of, ed25519_signature_of,
    sign_data, verify_data, KeyPair, generate_keypair,
};

verus! {

/// What an entry records: its data, the chain digest of the entry before it
/// (0 for the first) and its 1-based position.
pub struct LogEntryContent {
    pub data: Vec<u8>,
    pub hash_previous: u64,
    pub sequence_number: u64,
}

/// The bytes that are signed: data, then `hash_previous` and `sequence_number`,
/// each as eight big-endian bytes.
pub open spec fn content_bytes(c: LogEntryContent) -> Seq<u8> {
    c.data@ + be64(c.hash_previous) + be64(c.sequence_number)
}

impl LogEntryContent {
    pub fn new(hash_previous: u64, data: Vec<u8>, sequence_number: u64) -> (r: Self)
        ensures
            r.data@ == data@,
            r.hash_previous == hash_previous,
            r.sequence_number == sequence_number,
    {
        LogEntryContent { data, hash_previous, sequence_number }
    }

    /// The signed byte form of this content.
    pub fn to_bytes(&self) -> (r: Vec<u8>)
        ensures
            r@ == content_bytes(*self),
    {
        let mut result = self.data.clone();
        push_be64(&mut result, self.hash_previous);
        push_be64(&mut result, self.sequence_number);
        result
    }
}

/// A content with its 64-byte signature.
pub struct LogEntry {
    pub content: LogEntryContent,
    pub signature: Vec<u8>,
}

/// The bytes an entry's chain digest is taken over: its signed bytes, then its signature.
pub open spec fn entry_bytes(e: LogEntry) -> Seq<u8> {
    content_bytes(e.content) + e.signature@
}

/// The chain digest of an entry.
pub open spec fn entry_digest(e: LogEntry) -> u64 {
    chain_digest(entry_bytes(e))
}

/// Entry `i` of `entries` is in place: numbered `i + 1`, linked to the entry
/// before it, and its signature is accepted under `public`.
pub open spec fn entry_valid_at(entries: Seq<LogEntry>, i: int, public: Seq<u8>) -> bool {
    &&& entries[i].content.sequence_number == i + 1
    &&& i > 0 ==> entries[i].content.hash_previous == entry_digest(entries[i - 1])
    &&& ed25519_accepts(public, content_bytes(entries[i].content), entries[i].signature@)
}

/// Every entry of `entries` is in place under `public`.
pub open spec fn entries_valid(entries: Seq<LogEntry>, public: Seq<u8>) -> bool {
    forall|i: int| 0 <= i < entries.len() ==> #[trigger] entry_valid_at(entries, i, public)
}

/// Entry `i` of `entries` is numbered `i + 1`, links to the entry before it
/// (0 for the first) and carries the signature that `secret` makes of it.
pub open spec fn entry_in_chain(entries: Seq<LogEntry>, i: int, secret: Seq<u8>) -> bool {
    &&& entries[i].content.sequence_number == i + 1
    &&& i == 0 ==> entries[i].content.hash_previous == 0
    &&& i > 0 ==> entries[i].content.hash_previous == entry_digest(entries[i - 1])
    &&& entries[i].signature@ == ed25519_signature_of(secret, content_bytes(entries[i].content))
}

impl LogEntry {
    /// Signs `content` with `keypair`.
    pub fn sign(content: LogEntryContent, keypair: &KeyPair) -> (r: Self)
        requires
            keypair.wf(),
        ensures
            r.content == content,
            r.signature@ == ed25519_signature_of(keypair.secret@, content_bytes(content)),
    {
        let bytes = content.to_bytes();
        let signature = sign_data(keypair.public.as_slice(), keypair.secret.as_slice(), bytes.as_slice());
        LogEntry { content, signature }
    }

    /// Whether the signature is accepted for the content under `public_key`.
    pub fn verify(&self, public_key: &[u8]) -> (r: bool)
        ensures
            r == ed25519_accepts(public_key@, content_bytes(self.content), self.signature@),
            forall|s: Seq<u8>|
                s.len() == 32 && public_key@ == ed25519_public_of(s) && self.signature@
                    == #[trigger] ed25519_signature_of(s, content_bytes(self.content)) ==> r,
    {
        let bytes = self.content.to_bytes();
        verify_data(public_key, bytes.as_slice(), self.signature.as_slice()).is_ok()
    }

    /// The bytes the chain digest is taken over.
    pub fn to_bytes(&self) -> (r: Vec<u8>)
        ensures
            r@ == entry_bytes(*self),
    {
        let mut result = self.content.to_bytes();
        let mut i: usize = 0;
        while i < self.signature.len()
            invariant
                i <= self.signature@.len(),
                result@ == content_bytes(self.content) + self.signature@.subrange(0, i as int),
            decreases self.signature@.len() - i,
        {
            result.push(self.signature[i]);
            i = i + 1;
            assert(result@ =~= content_bytes(self.content) + self.signature@.subrange(0, i as int));
        }
        assert(self.signature@.subrange(0, i as int) =~= self.signature@);
        result
    }
}

/// The chain digest of `entry`.
pub fn generate_hash(entry: &LogEntry) -> (r: u64)
    ensures
        r == entry_digest(*entry),
{
    let bytes = entry.to_bytes();
    chain_hash(bytes.as_slice())
}

/// Append-only log data structure, with the key pair that signs its entries.
pub struct Log {
    entries: Vec<LogEntry>,
    keypair: KeyPair,
}

impl View for Log {
    type V = Seq<LogEntry>;

    closed spec fn view(&self) -> Seq<LogEntry> {
        self.entries@
    }
}

impl Log {
    /// The public key that the entries are signed for.
    pub closed spec fn public_spec(&self) -> Seq<u8> {
        self.keypair.public@
    }

    /// The secret key that signs the entries.
    pub closed spec fn secret_spec(&self) -> Seq<u8> {
        self.keypair.secret@
    }

    /// The key pair is well formed and every entry is numbered, linked and
    /// signed with its secret key.
    pub closed spec fn wf(&self) -> bool {
        &&& self.keypair.wf()
        &&& forall|i: int|
            0 <= i < self.entries@.len() ==> #[trigger] entry_in_chain(
                self.entries@,
                i,
                self.keypair.secret@,
            )
    }

    /// The entries of a well-formed log are numbered 1 to n in order, and each
    /// but the first links to the chain digest of the one before it.
    pub proof fn lemma_wf_numbered(&self)
        requires
            self.wf(),
        ensures
            forall|i: int| 0 <= i < self@.len() ==> #[trigger] self@[i].content.sequence_number == i + 1,
            forall|i: int|
                0 < i < self@.len() ==> #[trigger] self@[i].content.hash_previous == entry_digest(
                    self@[i - 1],
                ),
    {
        assert forall|i: int| 0 <= i < self@.len() implies #[trigger] self@[i].content.sequence_number
            == i + 1 by {
            assert(entry_in_chain(self.entries@, i, self.keypair.secret@));
        }
        assert forall|i: int| 0 < i < self@.len() implies #[trigger] self@[i].content.hash_previous
            == entry_digest(self@[i - 1]) by {
            assert(entry_in_chain(self.entries@, i, self.keypair.secret@));
        }
    }

    /// Returns a new, empty log with a freshly generated key pair.
    pub fn new() -> (r: Self)
        ensures
            r.wf(),
            r@ == Seq::<LogEntry>::empty(),
            r.public_spec().len() == 32,
            r.secret_spec().len() == 32,
            r.public_spec() == ed25519_public_of(r.secret_spec()),
    {
        Log { entries: Vec::new(), keypair: generate_keypair() }
    }

    /// Returns the public key of the log's key pair.
    pub fn public_key(&self) -> (r: &[u8])
        ensures
            r@ == self.public_spec(),
    {
        self.keypair.public.as_slice()
    }

    /// Returns the number of entries.
    pub fn len(&self) -> (r: usize)
        ensures
            r == self@.len(),
    {
        self.entries.len()
    }

    /// Returns whether the log holds no entry.
    pub fn is_empty(&self) -> (r: bool)
        ensures
            r == (self@.len() == 0),
    {
        self.entries.len() == 0
    }

    /// Returns the data stored at `index`, or `None` past the end.
    pub fn get(&self, index: usize) -> (r: Option<Vec<u8>>)
        ensures
            index < self@.len() ==> r is Some && r->0@ == self@[index as int].content.data@,
            index >= self@.len() ==> r is None,
    {
        if index < self.entries.len() {
            Some(self.entries[index].content.data.clone())
        } else {
            None
        }
    }

    /// Returns the chain digest of the entry at `index`, or `None` past the end.
    pub fn hash(&self, index: usize) -> (r: Option<u64>)
        ensures
            index < self@.len() ==> r == Some(entry_digest(self@[index as int])),
            index >= self@.len() ==> r is None,
    {
        if index < self.entries.len() {
            Some(generate_hash(&self.entries[index]))
        } else {
            None
        }
    }
    /// Appends an entry with `data`: numbered after the last entry, linked to
    /// its chain digest (0 for the first), and signed with the log's key pair.
    pub fn append(&mut self, data: &[u8])
        requires
            old(self).wf(),
            old(self)@.len() < usize::MAX,
        ensures
            final(self).wf(),
            final(self).public_spec() == old(self).public_spec(),
            final(self).secret_spec() == old(self).secret_spec(),
            final(self)@.len() == old(self)@.len() + 1,
            final(self)@.subrange(0, old(self)@.len() as int) == old(self)@,
            final(self)@.last().content.data@ == data@,
            final(self)@.last().content.sequence_number == old(self)@.len() + 1,
            final(self)@.last().content.hash_previous == if old(self)@.len() == 0 {
                0
            } else {
                entry_digest(old(self)@.last())
            },
            final(self)@.last().signature@ == ed25519_signature_of(
                old(self).secret_spec(),
                content_bytes(final(self)@.last().content),
            ),
            forall|i: int|
                0 <= i < final(self)@.len() ==> #[trigger] final(self)@[i].content.sequence_number
                    == i + 1,
    {
        let sequence_number: usize = self.entries.len() + 1;
        let mut hash_previous: u64 = 0;
        if sequence_number > 1 {
            hash_previous = generate_hash(&self.entries[sequence_number - 2]);
        }
        let content = LogEntryContent::new(hash_previous, copy_bytes(data), sequence_number as u64);
        let entry = LogEntry::sign(content, &self.keypair);
        self.entries.push(entry);
        proof {
            let n = old(self)@.len() as int;
            assert(final(self)@.subrange(0, n) =~= old(self)@);
            assert forall|i: int| 0 <= i < final(self).entries@.len() implies #[trigger] entry_in_chain(
                final(self).entries@,
                i,
                final(self).keypair.secret@,
            ) by {
                if i < n {
                    assert(entry_in_chain(old(self).entries@, i, old(self).keypair.secret@));
                }
            }
            final(self).lemma_wf_numbered();
        }
    }

    /// Checks, in order, that every entry is numbered from 1, links to the
    /// chain digest of the entry before it, and is signed for `public_key`.
    pub fn verify(&self, public_key: &[u8]) -> (r: bool)
        ensures
            r == entries_valid(self@, public_key@),
            self.wf() && public_key@ == self.public_spec() ==> r,
    {
        let mut i: usize = 0;
        while i < self.entries.len()
            invariant
                i <= self.entries@.len(),
                forall|j: int| 0 <= j < i ==> #[trigger] entry_valid_at(self@, j, public_key@),
            decreases self.entries@.len() - i,
        {
            let entry = &self.entries[i];
            if i > 0 {
                let hash_previous = generate_hash(&self.entries[i - 1]);
                if hash_previous != entry.content.hash_previous {
                    assert(!entry_valid_at(self@, i as int, public_key@));
                    proof {
                        if self.wf() {
                            assert(entry_in_chain(self.entries@, i as int, self.keypair.secret@));
                        }
                    }
                    return false;
                }
            }
            if entry.content.sequence_number != i as u64 + 1 {
                assert(!entry_valid_at(self@, i as int, public_key@));
                proof {
                    if self.wf() {
                        assert(entry_in_chain(self.entries@, i as int, self.keypair.secret@));
                    }
                }
                return false;
            }
            if !entry.verify(public_key) {
                assert(!entry_valid_at(self@, i as int, public_key@));
                proof {
                    if self.wf() && public_key@ == self.public_spec() {
                        assert(entry_in_chain(self.entries@, i as int, self.keypair.secret@));
                    }
                }
                return false;
            }
            i = i + 1;
        }
        true
    }
}

/// Changing the sequence number of an entry of a valid log makes it invalid.
pub proof fn lemma_altered_sequence_number_rejected(
    entries: Seq<LogEntry>,
    public: Seq<u8>,
    i: int,
    altered: LogEntry,
)
    requires
        entries_valid(entries, public),
        0 <= i < entries.len(),
        altered.content.sequence_number != entries[i].content.sequence_number,
    ensures
        !entries_valid(entries.update(i, altered), public),
{
    assert(entry_valid_at(entries, i, public));
    assert(!entry_valid_at(entries.update(i, altered), i, public));
}

/// Changing the stored chain digest of any entry but the first of a valid log
/// makes it invalid.
pub proof fn lemma_altered_hash_previous_rejected(
    entries: Seq<LogEntry>,
    public: Seq<u8>,
    i: int,
    altered: LogEntry,
)
    requires
        entries_valid(entries, public),
        0 < i < entries.len(),
        altered.content.hash_previous != entries[i].content.hash_previous,
    ensures
        !entries_valid(entries.update(i, altered), public),
{
    assert(entry_valid_at(entries, i, public));
    assert(entries.update(i, altered)[i - 1] == entries[i - 1]);
    assert(!entry_valid_at(entries.update(i, altered), i, public));
}

/// Swapping two entries of a valid log makes it invalid.
pub proof fn lemma_swapped_entries_rejected(entries: Seq<LogEntry>, public: Seq<u8>, i: int, j: int)
    requires
        entries_valid(entries, public),
        0 <= i < j < entries.len(),
    ensures
        !entries_valid(entries.update(i, entries[j]).update(j, entries[i]), public),
{
    let swapped = entries.update(i, entries[j]).update(j, entries[i]);
    assert(entry_valid_at(entries, j, public));
    assert(swapped[i] == entries[j]);
    assert(!entry_valid_at(swapped, i, public));
}

/// Replacing an entry of a valid log by one whose signature is not accepted
/// for its content (as with altered data under an unforgeable signature) makes
/// it invalid.
pub proof fn lemma_unsigned_content_rejected(
    entries: Seq<LogEntry>,
    public: Seq<u8>,
    i: int,
    altered: LogEntry,
)
    requires
        0 <= i < entries.len(),
        !ed25519_accepts(public, content_bytes(altered.content), altered.signature@),
    ensures
        !entries_valid(entries.update(i, altered), public),
{
    assert(!entry_valid_at(entries.update(i, altered), i, public));
}

/// Two signings of the same content with the same secret key give entries with
/// the same chain digest.
pub proof fn lemma_same_signed_content_same_digest(e1: LogEntry, e2: LogEntry, secret: Seq<u8>)
    requires
        e1.content.data@ == e2.content.data@,
        e1.content.hash_previous == e2.content.hash_previous,
        e1.content.sequence_number == e2.content.sequence_number,
        e1.signature@ == ed25519_signature_of(secret, content_bytes(e1.content)),
        e2.signature@ == ed25519_signature_of(secret, content_bytes(e2.content)),
    ensures
        entry_digest(e1) == entry_digest(e2),
{
    assert(content_bytes(e1.content) == content_bytes(e2.content));
    assert(entry_bytes(e1) == entry_bytes(e2));
}

} // verus!
