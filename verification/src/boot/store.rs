//! The EFI variable store that boot entries live in.
use vstd::prelude::*;

use efivar::efi::{Variable, VariableFlags};

verus! {

/// An efivar variable manager. Build it from `efivar::system()` for the
/// firmware store (see `VarStore::firmware`).
#[verifier::external_body]
pub struct Backend {
    pub manager: Box<dyn efivar::VarManager>,
}

/// A store of EFI global variables: the firmware's NVRAM, or a TOML file of
/// variables for testing.
pub struct VarStore {
    backend: Backend,
    file_backed: bool,
    deletes: bool,
}

/// The EFI global variables that reading the store yields, by name.
///
/// A variable that a read cannot return (absent, or unreadable) is not in
/// this map. The store is taken to be changed only through this value.
pub uninterp spec fn store_vars(store: VarStore) -> Map<Seq<char>, Seq<u8>>;

/// Opens the TOML file store at `path`.
///
/// Trusted: calls `efivar::file_store(path)`, which reads the file now (an
/// unreadable or malformed file gives an empty store) and writes it back
/// when the store is dropped; nothing is claimed of the variables it holds.
#[verifier::external_body]
fn open_file_store(path: &str) -> Backend {
    Backend { manager: efivar::file_store(path) }
}

impl VarStore {
    /// The file store can delete.
    #[verifier::type_invariant]
    spec fn file_store_deletes(&self) -> bool {
        self.file_backed ==> self.deletes
    }

    /// This store is efivar's TOML file store.
    pub closed spec fn file_backed(&self) -> bool {
        self.file_backed
    }

    /// This store can delete variables.
    pub closed spec fn deletes(&self) -> bool {
        self.deletes
    }

    /// The running system's firmware variables, over the manager that
    /// `efivar::system()` returned. `deletes` tells whether efivar's
    /// backend can delete: its backend for the older efivars sysfs
    /// interface cannot.
    pub fn firmware(backend: Backend, deletes: bool) -> (s: VarStore)
        ensures
            !s.file_backed(),
            s.deletes() == deletes,
    {
        VarStore { backend, file_backed: false, deletes }
    }

    /// A store kept in a TOML file, read now and written back when the store
    /// is dropped.
    pub fn file(path: &str) -> (s: VarStore)
        ensures
            s.file_backed(),
            s.deletes(),
    {
        VarStore { backend: open_file_store(path), file_backed: true, deletes: true }
    }

    /// Whether this store can delete variables.
    pub fn can_delete(&self) -> (r: bool)
        ensures
            r == self.deletes(),
            self.file_backed() ==> r,
    {
        proof {
            use_type_invariant(self);
        }
        self.deletes
    }

    /// Reads the value of a global variable.
    ///
    /// Trusted: calls efivar's `VarReader::read` on `Variable::new(name)`,
    /// drops the attributes and turns an error into its text. Claimed: the
    /// read succeeds exactly for the variables of `store_vars` and returns
    /// the value held there.
    #[verifier::external_body]
    pub(crate) fn read(&self, name: &str) -> (r: Result<Vec<u8>, String>)
        ensures
            r is Ok <==> store_vars(*self).contains_key(name@),
            r matches Ok(d) ==> d@ == store_vars(*self)[name@],
    {
        self.backend.manager.read(&Variable::new(name)).map(|(d, _)| d).map_err(|e| e.to_string())
    }

    /// Writes the value of a global variable with the default attributes.
    ///
    /// Trusted: calls efivar's `VarWriter::write` on `Variable::new(name)`
    /// with `VariableFlags::default()`; an error becomes its text; the
    /// store's own flags are not touched. Claimed:
    /// - the file store always accepts a write and then holds exactly the
    ///   data (store/variable.rs sets the map entry and returns `Ok`; a read
    ///   decodes what the write encoded);
    /// - after a successful write of at least one byte the variable holds
    ///   the data, as `VarWriter::write` documents ("Write the new value of
    ///   the given EFI variable"); what a zero-length write leaves in a
    ///   firmware variable (UEFI deletes it) is not claimed;
    /// - whether or not it succeeds, every other variable is unchanged: each
    ///   backend touches only the named variable (the file store's map
    ///   entry, the efivarfs file, the one firmware variable on Windows).
    #[verifier::external_body]
    pub(crate) fn write(&mut self, name: &str, data: &[u8]) -> (r: Result<(), String>)
        ensures
            old(self).file_backed() ==> r is Ok,
            r is Ok && (old(self).file_backed() || data@.len() > 0) ==> store_vars(*final(self))
                == store_vars(*old(self)).insert(name@, data@),
            store_vars(*final(self)).remove(name@) == store_vars(*old(self)).remove(name@),
            final(self).file_backed() == old(self).file_backed(),
            final(self).deletes() == old(self).deletes(),
    {
        self.backend.manager.write(&Variable::new(name), VariableFlags::default(), data).map_err(|e| e.to_string())
    }

    /// Deletes a global variable.
    ///
    /// Trusted: calls efivar's `VarWriter::delete` on `Variable::new(name)`;
    /// an error becomes its text; the store's own flags are not touched. The
    /// requirement excludes the efivars sysfs backend, whose `delete` panics.
    /// Claimed: the file store deletes a variable it holds (store/variable.rs
    /// removes the map entry and returns `Ok` when it was there); after a
    /// successful delete the variable is gone and every other variable is
    /// unchanged; a failed delete changes nothing.
    #[verifier::external_body]
    pub(crate) fn delete(&mut self, name: &str) -> (r: Result<(), String>)
        requires
            old(self).deletes(),
        ensures
            old(self).file_backed() && store_vars(*old(self)).contains_key(name@) ==> r is Ok,
            r is Ok ==> store_vars(*final(self)) == store_vars(*old(self)).remove(name@),
            r is Err ==> store_vars(*final(self)) == store_vars(*old(self)),
            final(self).file_backed() == old(self).file_backed(),
            final(self).deletes() == old(self).deletes(),
    {
        self.backend.manager.delete(&Variable::new(name)).map_err(|e| e.to_string())
    }
}

} // verus!
