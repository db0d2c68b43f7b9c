//! Filesystem-backed key store: persists PKCS#8 documents one file per
//! label under a root directory whose permission bits must be exactly
//! owner-only.
//!
//! This module holds everything the store decides: permission
//! enforcement, label validation, path derivation and the PEM codec for
//! entries. The unverified shell around the library performs the actual
//! directory and file operations and hands their observations in as
//! plain values; the `store_effect` / `load_result` / `delete_effect`
//! functions state what those operations do to the directory, modeled
//! as a map from file path to file text.

use vstd::prelude::*;
use vstd::string::StringSliceAdditionalSpecFns;

use crate::error::Error;
use crate::pkcs8doc::{pem_of, pem_private_key_der, Pkcs8Document};

verus! {

/// Required mode bits for a key-store root directory: owner
/// read/write/execute only. A mismatch is a hard error, never silently
/// corrected.
pub const REQUIRED_DIR_MODE: u32 = 0o700;

/// Bytes a key label may consist of: ASCII letters, digits, `_` and `-`.
/// Path separators, dots and every other byte are refused, so a label
/// can never traverse outside the store's root directory.
pub open spec fn label_byte_ok(b: u8) -> bool {
    (97 <= b <= 122) || (65 <= b <= 90) || (48 <= b <= 57) || b == 95 || b == 45
}

/// A valid key label: non-empty and made of label bytes only.
pub open spec fn label_valid(label: Seq<u8>) -> bool {
    label.len() >= 1 && forall|i: int| 0 <= i < label.len() ==> label_byte_ok(label[i])
}

/// The file path of a label's entry: `<root>/<label>.pem`.
pub open spec fn key_path_spec(root: Seq<u8>, label: Seq<u8>) -> Seq<u8> {
    root + seq![47u8] + label + seq![46u8, 112u8, 101u8, 109u8]
}

/// What storing a document does to the directory: the entry at the
/// label's path is written with the document's PEM armoring, replacing
/// any prior content for that label.
pub open spec fn store_effect(
    dir: Map<Seq<u8>, Seq<char>>,
    root: Seq<u8>,
    label: Seq<u8>,
    der: Seq<u8>,
) -> Map<Seq<u8>, Seq<char>> {
    dir.insert(key_path_spec(root, label), pem_of(der))
}

/// What loading a label yields from the directory: the DER bytes decoded
/// from the entry's text, `None` where the entry is absent or does not
/// decode.
pub open spec fn load_result(dir: Map<Seq<u8>, Seq<char>>, root: Seq<u8>, label: Seq<u8>) -> Option<
    Seq<u8>,
> {
    if dir.contains_key(key_path_spec(root, label)) {
        pem_private_key_der(dir[key_path_spec(root, label)])
    } else {
        None
    }
}

/// What deleting a label does to the directory: the entry at the label's
/// path is removed.
pub open spec fn delete_effect(
    dir: Map<Seq<u8>, Seq<char>>,
    root: Seq<u8>,
    label: Seq<u8>,
) -> Map<Seq<u8>, Seq<char>> {
    dir.remove(key_path_spec(root, label))
}

/// After deleting a label, loading it fails, whatever the directory
/// held before.
pub proof fn lemma_delete_then_load(dir: Map<Seq<u8>, Seq<char>>, root: Seq<u8>, label: Seq<u8>)
    ensures
        load_result(delete_effect(dir, root, label), root, label) is None,
{
    assert(!delete_effect(dir, root, label).contains_key(key_path_spec(root, label)));
}

/// Distinct valid labels derive distinct entry paths under one root, so
/// no operation on one label can touch another label's entry.
pub proof fn lemma_key_path_injective(root: Seq<u8>, l1: Seq<u8>, l2: Seq<u8>)
    requires
        label_valid(l1),
        label_valid(l2),
        l1 != l2,
    ensures
        key_path_spec(root, l1) != key_path_spec(root, l2),
{
    let p1 = key_path_spec(root, l1);
    let p2 = key_path_spec(root, l2);
    if l1.len() == l2.len() {
        if p1 == p2 {
            assert forall|i: int| 0 <= i < l1.len() implies l1[i] == l2[i] by {
                assert(p1[root.len() + 1 + i] == l1[i]);
                assert(p2[root.len() + 1 + i] == l2[i]);
            }
            assert(l1 =~= l2);
        }
    } else {
        assert(p1.len() != p2.len());
    }
}

/// Storing under one label leaves what any other valid label loads
/// unchanged.
pub proof fn lemma_store_other_label_untouched(
    dir: Map<Seq<u8>, Seq<char>>,
    root: Seq<u8>,
    stored: Seq<u8>,
    other: Seq<u8>,
    der: Seq<u8>,
)
    requires
        label_valid(stored),
        label_valid(other),
        stored != other,
    ensures
        load_result(store_effect(dir, root, stored, der), root, other) == load_result(
            dir,
            root,
            other,
        ),
{
    lemma_key_path_injective(root, stored, other);
}

/// Checks that `bytes` form a valid key label.
fn check_label(bytes: &[u8]) -> (r: bool)
    ensures
        r == label_valid(bytes@),
{
    if bytes.len() == 0 {
        return false;
    }
    let mut i: usize = 0;
    while i < bytes.len()
        invariant
            0 <= i <= bytes@.len(),
            forall|j: int| 0 <= j < i ==> label_byte_ok(bytes@[j]),
        decreases bytes@.len() - i,
    {
        let b = bytes[i];
        if !((b >= 97 && b <= 122) || (b >= 65 && b <= 90) || (b >= 48 && b <= 57) || b == 95
            || b == 45) {
            return false;
        }
        i = i + 1;
    }
    true
}

/// One planned write to the store's directory: the entry path and the
/// exact text to put there. The unverified shell performs the write.
pub struct KeyStoreWrite {
    pub path: Vec<u8>,
    pub contents: String,
}

/// Filesystem-backed key store, bound to one validated root directory
/// path.
pub struct FsKeyStore {
    path: Vec<u8>,
}

impl View for FsKeyStore {
    type V = Seq<u8>;

    closed spec fn view(&self) -> Seq<u8> {
        self.path@
    }
}

impl FsKeyStore {
    /// Validate an opened directory. The caller canonicalizes `dir_path`,
    /// stats it, and hands in whether it is a directory and its
    /// permission mode bits. Anything that is not a directory is
    /// refused, and so is any mode whose permission bits (the low nine
    /// mode bits) differ from the required owner-only mode — this check runs on every open, so a
    /// store whose permissions were loosened out-of-band is refused
    /// rather than silently trusted.
    pub fn open(dir_path: &[u8], is_dir: bool, mode: u32) -> (r: Result<FsKeyStore, Error>)
        ensures
            r is Ok <==> is_dir && mode % 0o1000 == REQUIRED_DIR_MODE,
            r matches Ok(store) ==> store@ == dir_path@,
            !is_dir ==> (r matches Err(e) && e == Error::NotADirectory),
            is_dir && mode % 0o1000 != REQUIRED_DIR_MODE ==> (r matches Err(e) && e
                == Error::Permissions),
    {
        if !is_dir {
            return Err(Error::NotADirectory);
        }
        if mode % 0o1000 != REQUIRED_DIR_MODE {
            return Err(Error::Permissions);
        }
        Ok(FsKeyStore { path: vstd::slice::slice_to_vec(dir_path) })
    }

    /// Compute the path for a key with a given label, refusing any label
    /// that could not safely name one entry directly under the root.
    pub fn key_path(&self, label: &str) -> (r: Result<Vec<u8>, Error>)
        ensures
            r is Ok <==> label_valid(label.spec_bytes()),
            r matches Ok(p) ==> p@ == key_path_spec(self@, label.spec_bytes()),
            r matches Err(e) ==> e == Error::Io,
    {
        let label_bytes = label.as_bytes();
        if !check_label(label_bytes) {
            return Err(Error::Io);
        }
        let mut path: Vec<u8> = Vec::new();
        let mut i: usize = 0;
        while i < self.path.len()
            invariant
                0 <= i <= self.path@.len(),
                path@ == self.path@.subrange(0, i as int),
            decreases self.path@.len() - i,
        {
            path.push(self.path[i]);
            i = i + 1;
        }
        assert(path@ =~= self.path@);
        path.push(47u8);
        let mut j: usize = 0;
        while j < label_bytes.len()
            invariant
                0 <= j <= label_bytes@.len(),
                path@ == self.path@ + seq![47u8] + label_bytes@.subrange(0, j as int),
            decreases label_bytes@.len() - j,
        {
            path.push(label_bytes[j]);
            assert(path@ =~= self.path@ + seq![47u8] + label_bytes@.subrange(0, j + 1 as int));
            j = j + 1;
        }
        path.push(46u8);
        path.push(112u8);
        path.push(101u8);
        path.push(109u8);
        assert(path@ =~= key_path_spec(self@, label.spec_bytes()));
        Ok(path)
    }

    /// Plan the import of a PKCS#8 document into the store: the entry
    /// path for the label and the PEM text to write there, overwriting
    /// any prior content for that label. Decoding the planned text
    /// yields the document byte-identical, so an entry written as
    /// planned and loaded back returns what was stored.
    pub fn store(&self, label: &str, der: &Pkcs8Document) -> (r: Result<KeyStoreWrite, Error>)
        ensures
            r is Ok <==> label_valid(label.spec_bytes()),
            r matches Ok(w) ==> w.path@ == key_path_spec(self@, label.spec_bytes()) && w.contents@
                == pem_of(der@) && pem_private_key_der(w.contents@) == Some(der@),
            r matches Ok(w) ==> forall|dir: Map<Seq<u8>, Seq<char>>|
                load_result(
                    #[trigger] store_effect(dir, self@, label.spec_bytes(), der@),
                    self@,
                    label.spec_bytes(),
                ) == Some(der@),
            r matches Err(e) ==> e == Error::Io,
    {
        let path = self.key_path(label)?;
        let contents = der.to_pem();
        proof {
            assert forall|dir: Map<Seq<u8>, Seq<char>>|
                load_result(
                    #[trigger] store_effect(dir, self@, label.spec_bytes(), der@),
                    self@,
                    label.spec_bytes(),
                ) == Some(der@) by {
                let k = key_path_spec(self@, label.spec_bytes());
                assert(store_effect(dir, self@, label.spec_bytes(), der@).contains_key(k));
                assert(store_effect(dir, self@, label.spec_bytes(), der@)[k] == pem_of(der@));
            }
        }
        Ok(KeyStoreWrite { path, contents })
    }

    /// Decode a loaded entry back into a PKCS#8 document. The caller
    /// reads the file at `key_path(label)` and hands in its text; a
    /// parse failure propagates as an encoding error.
    pub fn load(&self, label: &str, contents: &str) -> (r: Result<Pkcs8Document, Error>)
        ensures
            r is Ok <==> label_valid(label.spec_bytes()) && pem_private_key_der(contents@) is Some,
            r matches Ok(doc) ==> Some(doc@) == pem_private_key_der(contents@),
            !label_valid(label.spec_bytes()) ==> (r matches Err(e) && e == Error::Io),
            label_valid(label.spec_bytes()) && pem_private_key_der(contents@) is None ==> (
            r matches Err(e) && e == Error::EncodingError),
    {
        let label_bytes = label.as_bytes();
        if !check_label(label_bytes) {
            return Err(Error::Io);
        }
        Pkcs8Document::from_pem(contents)
    }

    /// Compute the entry path a delete must remove. The caller removes
    /// the file at the returned path; absence of the file is the
    /// caller's propagated I/O error, not silently ignored.
    pub fn delete(&self, label: &str) -> (r: Result<Vec<u8>, Error>)
        ensures
            r is Ok <==> label_valid(label.spec_bytes()),
            r matches Ok(p) ==> p@ == key_path_spec(self@, label.spec_bytes()),
            r matches Err(e) ==> e == Error::Io,
    {
        self.key_path(label)
    }
}

} // verus!
