use vstd::prelude::*;

verus! {

/// Ghost record of everything the index logic reads from one downloadable
/// item: the display name, the reported byte length (passed through from the
/// remote system, which may report negative or unknown sizes), and the two
/// halves of the entry's identity — a per-construction random salt and the
/// stable document identifier of the remote system.
#[verifier::ext_equal]
pub ghost struct FileMeta {
    pub name: Seq<char>,
    pub file_size: int,
    pub random_id: int,
    pub document_id: int,
}

/// One downloadable item of the index.
///
/// Created only during a full refresh, immutable afterwards, and cloned
/// freely for read access.  The `random_id` salt makes two entries built
/// from the same remote document distinct for fingerprinting purposes, so
/// a snapshot's fingerprint changes on every refresh by design.
#[derive(Debug)]
pub struct DownloadFile {
    pub name: String,
    pub file_size: i64,
    pub random_id: i64,
    pub document_id: i64,
}

impl View for DownloadFile {
    type V = FileMeta;

    open spec fn view(&self) -> FileMeta {
        FileMeta {
            name: self.name@,
            file_size: self.file_size as int,
            random_id: self.random_id as int,
            document_id: self.document_id as int,
        }
    }
}

/// Relies on rand::random: draws a value from the thread-local generator.
/// Nothing can be promised of a random value, so there is no `ensures`.
pub assume_specification<T>[ rand::random::<T> ]() -> (r: T)
    where
        rand::distributions::Standard: rand::distributions::Distribution<T>,
;

impl DownloadFile {
    /// Builds one entry from what a refresh observed of a remote document.
    /// The salt half of the identity is drawn fresh on every call, so no
    /// clause speaks of `random_id`.
    pub fn new(name: String, size: i64, document_id: i64) -> (r: Self)
        ensures
            r@.name == name@,
            r@.file_size == size as int,
            r@.document_id == document_id as int,
    {
        Self { name, file_size: size, random_id: rand::random(), document_id }
    }

}

impl Clone for DownloadFile {
    fn clone(&self) -> (r: Self)
        ensures
            r@ == self@,
    {
        let r = DownloadFile {
            name: self.name.clone(),
            file_size: self.file_size,
            random_id: self.random_id,
            document_id: self.document_id,
        };
        proof {
            assert(r@ =~= self@);
        }
        r
    }
}

/// The ghost contents of a whole entry list, in order.
pub open spec fn metas_of(files: Seq<DownloadFile>) -> Seq<FileMeta> {
    files.map(|i: int, f: DownloadFile| f@)
}

/// Clones an entry list element by element, preserving every entry's
/// content exactly.
pub fn clone_files(files: &Vec<DownloadFile>) -> (r: Vec<DownloadFile>)
    ensures
        metas_of(r@) == metas_of(files@),
{
    let mut r: Vec<DownloadFile> = Vec::new();
    let mut i: usize = 0;
    while i < files.len()
        invariant
            i <= files@.len(),
            r@.len() == i,
            forall|j: int| 0 <= j < i ==> r@[j]@ == files@[j]@,
        decreases files@.len() - i,
    {
        r.push(files[i].clone());
        i = i + 1;
    }
    proof {
        assert(metas_of(r@) =~= metas_of(files@));
    }
    r
}

} // verus!
