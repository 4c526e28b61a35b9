use vstd::prelude::*;

use crate::file::{DownloadFile, FileMeta, metas_of};

verus! {

/// Offset basis of the 64-bit FNV-1a hash.
pub const FNV_OFFSET_BASIS: u64 = 0xcbf2_9ce4_8422_2325;

/// Prime of the 64-bit FNV-1a hash.
pub const FNV_PRIME: u64 = 0x100_0000_01b3;

/// One FNV-1a step: fold one word into the running state.
pub open spec fn mix(h: u64, w: u64) -> u64 {
    vstd::wrapping::u64_specs::wrapping_mul(h ^ w, FNV_PRIME)
}

/// The running state after folding a whole word sequence, left to right.
pub open spec fn hash_words(h: u64, ws: Seq<u64>) -> u64
    decreases ws.len(),
{
    if ws.len() == 0 {
        h
    } else {
        hash_words(mix(h, ws[0]), ws.skip(1))
    }
}

/// A signed value as a hash word, in two's-complement form.
pub open spec fn word_of_int(x: int) -> u64 {
    if x >= 0 {
        x as u64
    } else {
        (x + 0x1_0000_0000_0000_0000) as u64
    }
}

/// The words contributed by an entry's name: one per character.
pub open spec fn name_words(name: Seq<char>) -> Seq<u64> {
    name.map(|i: int, c: char| (c as u32) as u64)
}

/// The words contributed by one entry: its name's length and characters,
/// then its size, its salt and its document identifier.
pub open spec fn file_words(m: FileMeta) -> Seq<u64> {
    seq![m.name.len() as u64] + name_words(m.name) + seq![
        word_of_int(m.file_size),
        word_of_int(m.random_id),
        word_of_int(m.document_id),
    ]
}

/// The words contributed by a whole entry list, in snapshot order.
pub open spec fn files_words(ms: Seq<FileMeta>) -> Seq<u64>
    decreases ms.len(),
{
    if ms.len() == 0 {
        Seq::empty()
    } else {
        file_words(ms[0]) + files_words(ms.skip(1))
    }
}

/// Everything a snapshot's fingerprint reads: the capture time followed by
/// every entry's content, in order.
pub open spec fn snapshot_words(time: i64, ms: Seq<FileMeta>) -> Seq<u64> {
    seq![word_of_int(time as int)] + files_words(ms)
}

/// The fingerprint of a snapshot: a deterministic 64-bit hash over the
/// capture time and every entry's identity, name and size, in order.  It is
/// a staleness token only — because every refresh salts its entries anew,
/// equal fingerprints mean "the exact same snapshot", never "unchanged
/// remote content".
pub open spec fn spec_fingerprint(time: i64, ms: Seq<FileMeta>) -> u64 {
    hash_words(FNV_OFFSET_BASIS, snapshot_words(time, ms))
}

/// Folding a concatenation folds the two halves in turn.
pub proof fn lemma_hash_words_concat(h: u64, a: Seq<u64>, b: Seq<u64>)
    ensures
        hash_words(h, a + b) == hash_words(hash_words(h, a), b),
    decreases a.len(),
{
    if a.len() == 0 {
        assert(a + b =~= b);
    } else {
        assert((a + b)[0] == a[0]);
        assert((a + b).skip(1) =~= a.skip(1) + b);
        lemma_hash_words_concat(mix(h, a[0]), a.skip(1), b);
    }
}

/// Folding one more word mixes it into the state reached so far.
pub proof fn lemma_hash_words_push(h: u64, a: Seq<u64>, w: u64)
    ensures
        hash_words(h, a.push(w)) == mix(hash_words(h, a), w),
{
    assert(a.push(w) =~= a + seq![w]);
    lemma_hash_words_concat(h, a, seq![w]);
    let x = hash_words(h, a);
    assert(seq![w].skip(1) =~= Seq::<u64>::empty());
    assert(hash_words(x, seq![w]) == hash_words(mix(x, w), seq![w].skip(1)));
    assert(hash_words(mix(x, w), Seq::<u64>::empty()) == mix(x, w));
}

/// The word lists of the first `i + 1` entries extend those of the first `i`.
proof fn lemma_files_words_snoc(ms: Seq<FileMeta>, i: int)
    requires
        0 <= i < ms.len(),
    ensures
        files_words(ms.take(i + 1)) == files_words(ms.take(i)) + file_words(ms[i]),
    decreases i,
{
    if i == 0 {
        assert(ms.take(1)[0] == ms[0]);
        assert(ms.take(1).skip(1) =~= Seq::<FileMeta>::empty());
        assert(ms.take(0) =~= Seq::<FileMeta>::empty());
        assert(files_words(Seq::<FileMeta>::empty()) == Seq::<u64>::empty());
        assert(files_words(ms.take(1)) == file_words(ms[0]) + files_words(
            Seq::<FileMeta>::empty(),
        ));
        assert(file_words(ms[0]) + Seq::<u64>::empty() =~= file_words(ms[0]));
        assert(Seq::<u64>::empty() + file_words(ms[0]) =~= file_words(ms[0]));
    } else {
        let tl = ms.skip(1);
        assert(ms.take(i + 1)[0] == ms[0]);
        assert(ms.take(i + 1).skip(1) =~= tl.take(i));
        assert(ms.take(i).skip(1) =~= tl.take(i - 1));
        assert(ms.take(i)[0] == ms[0]);
        lemma_files_words_snoc(tl, i - 1);
        assert(tl[i - 1] == ms[i]);
        assert(files_words(ms.take(i + 1)) == file_words(ms[0]) + files_words(tl.take(i)));
        assert(files_words(ms.take(i)) == file_words(ms[0]) + files_words(tl.take(i - 1)));
        assert(file_words(ms[0]) + (files_words(tl.take(i - 1)) + file_words(ms[i]))
            =~= (file_words(ms[0]) + files_words(tl.take(i - 1))) + file_words(ms[i]));
    }
}

/// The fingerprint reads nothing but the capture time and the entries'
/// content: two snapshots that agree on both have the same fingerprint,
/// whichever instances hold them.
pub proof fn lemma_fingerprint_deterministic(
    t1: i64,
    ms1: Seq<FileMeta>,
    t2: i64,
    ms2: Seq<FileMeta>,
)
    requires
        t1 == t2,
        ms1 == ms2,
    ensures
        spec_fingerprint(t1, ms1) == spec_fingerprint(t2, ms2),
{
}

/// Two entries that agree on name, size and document identifier but carry
/// different salts contribute different word lists.
proof fn lemma_salt_distinguishes_file_words(m1: FileMeta, m2: FileMeta)
    requires
        m1.name == m2.name,
        m1.file_size == m2.file_size,
        m1.document_id == m2.document_id,
        m1.random_id != m2.random_id,
        -0x8000_0000_0000_0000 <= m1.random_id < 0x8000_0000_0000_0000,
        -0x8000_0000_0000_0000 <= m2.random_id < 0x8000_0000_0000_0000,
    ensures
        file_words(m1) != file_words(m2),
        file_words(m1).len() == file_words(m2).len(),
{
    let k = 2 + m1.name.len() as int;
    assert(file_words(m1)[k] == word_of_int(m1.random_id));
    assert(file_words(m2)[k] == word_of_int(m2.random_id));
    assert(word_of_int(m1.random_id) != word_of_int(m2.random_id));
}

/// An entry's salt is visible in the whole list's word sequence: two entry
/// lists that agree everywhere except in one entry's salt feed different
/// word lists to the hash.
proof fn lemma_salt_distinguishes_files_words(ms1: Seq<FileMeta>, ms2: Seq<FileMeta>, i: int)
    requires
        ms1.len() == ms2.len(),
        0 <= i < ms1.len(),
        forall|j: int| 0 <= j < ms1.len() && j != i ==> ms1[j] == ms2[j],
        ms1[i].name == ms2[i].name,
        ms1[i].file_size == ms2[i].file_size,
        ms1[i].document_id == ms2[i].document_id,
        ms1[i].random_id != ms2[i].random_id,
        -0x8000_0000_0000_0000 <= ms1[i].random_id < 0x8000_0000_0000_0000,
        -0x8000_0000_0000_0000 <= ms2[i].random_id < 0x8000_0000_0000_0000,
    ensures
        files_words(ms1) != files_words(ms2),
    decreases i,
{
    lemma_salt_distinguishes_file_words(ms1[i], ms2[i]);
    if i == 0 {
        let k = 2 + ms1[0].name.len() as int;
        let w1 = file_words(ms1[0]);
        let w2 = file_words(ms2[0]);
        assert(w1[k] != w2[k]);
        assert(files_words(ms1)[k] == w1[k]);
        assert(files_words(ms2)[k] == w2[k]);
    } else {
        let t1 = ms1.skip(1);
        let t2 = ms2.skip(1);
        assert(forall|j: int| 0 <= j < t1.len() && j != i - 1 ==> t1[j] == t2[j]);
        assert(t1[i - 1] == ms1[i] && t2[i - 1] == ms2[i]);
        lemma_salt_distinguishes_files_words(t1, t2, i - 1);
        assert(ms1[0] == ms2[0]);
        let head = file_words(ms1[0]);
        if files_words(ms1) == files_words(ms2) {
            assert(head + files_words(t1) == head + files_words(t2));
            assert forall|k: int| 0 <= k < files_words(t1).len() implies files_words(t1)[k]
                == files_words(t2)[k] by {
                assert((head + files_words(t1))[head.len() + k] == files_words(t1)[k]);
            }
            assert(files_words(t1).len() == files_words(t2).len()) by {
                assert((head + files_words(t1)).len() == (head + files_words(t2)).len());
            }
            assert(files_words(t1) =~= files_words(t2));
        }
    }
}

/// The deliberate policy behind the salt: a refresh that observes the very
/// same remote content — every name, size and document identifier equal —
/// still feeds the fingerprint a different word sequence as soon as one
/// freshly drawn salt differs.  Equal fingerprints therefore only ever
/// mean "the exact same snapshot", never "unchanged remote content".
pub proof fn lemma_salt_changes_fingerprint_input(
    t: i64,
    ms1: Seq<FileMeta>,
    ms2: Seq<FileMeta>,
    i: int,
)
    requires
        ms1.len() == ms2.len(),
        0 <= i < ms1.len(),
        forall|j: int| 0 <= j < ms1.len() && j != i ==> ms1[j] == ms2[j],
        ms1[i].name == ms2[i].name,
        ms1[i].file_size == ms2[i].file_size,
        ms1[i].document_id == ms2[i].document_id,
        ms1[i].random_id != ms2[i].random_id,
        -0x8000_0000_0000_0000 <= ms1[i].random_id < 0x8000_0000_0000_0000,
        -0x8000_0000_0000_0000 <= ms2[i].random_id < 0x8000_0000_0000_0000,
    ensures
        snapshot_words(t, ms1) != snapshot_words(t, ms2),
{
    lemma_salt_distinguishes_files_words(ms1, ms2, i);
    if snapshot_words(t, ms1) == snapshot_words(t, ms2) {
        let a = seq![word_of_int(t as int)];
        let b1 = files_words(ms1);
        let b2 = files_words(ms2);
        assert(b1.len() == b2.len()) by {
            assert((a + b1).len() == (a + b2).len());
        }
        assert forall|k: int| 0 <= k < b1.len() implies b1[k] == b2[k] by {
            assert((a + b1)[1 + k] == b1[k]);
        }
        assert(b1 =~= b2);
    }
}

/// A signed value as a hash word, in two's-complement form.
fn word_i64(x: i64) -> (r: u64)
    ensures
        r == word_of_int(x as int),
{
    if x >= 0 {
        x as u64
    } else {
        let wide: i128 = (x as i128) + 0x1_0000_0000_0000_0000;
        wide as u64
    }
}

/// One FNV-1a step.
fn mix_exec(h: u64, w: u64) -> (r: u64)
    ensures
        r == mix(h, w),
{
    (h ^ w).wrapping_mul(FNV_PRIME)
}

/// Folds one entry's words into the running state.
fn hash_file(h0: u64, f: &DownloadFile) -> (r: u64)
    ensures
        r == hash_words(h0, file_words(f@)),
{
    let n = f.name.as_str().unicode_len();
    let mut h = mix_exec(h0, n as u64);
    let ghost mut done: Seq<u64> = seq![n as u64];
    proof {
        lemma_hash_words_push(h0, Seq::empty(), n as u64);
        assert(Seq::<u64>::empty().push(n as u64) =~= done);
    }
    let mut j: usize = 0;
    while j < n
        invariant
            j <= n,
            n == f.name@.len(),
            h == hash_words(h0, done),
            done =~= seq![n as u64] + name_words(f.name@).take(j as int),
        decreases n - j,
    {
        let c = f.name.as_str().get_char(j);
        let w = (c as u32) as u64;
        proof {
            lemma_hash_words_push(h0, done, w);
            assert(name_words(f.name@)[j as int] == w);
            assert(done.push(w) =~= seq![n as u64] + name_words(f.name@).take(j + 1));
        }
        h = mix_exec(h, w);
        proof {
            done = done.push(w);
        }
        j = j + 1;
    }
    proof {
        assert(name_words(f.name@).take(n as int) =~= name_words(f.name@));
    }
    let w1 = word_i64(f.file_size);
    proof {
        lemma_hash_words_push(h0, done, w1);
    }
    h = mix_exec(h, w1);
    proof {
        done = done.push(w1);
    }
    let w2 = word_i64(f.random_id);
    proof {
        lemma_hash_words_push(h0, done, w2);
    }
    h = mix_exec(h, w2);
    proof {
        done = done.push(w2);
    }
    let w3 = word_i64(f.document_id);
    proof {
        lemma_hash_words_push(h0, done, w3);
    }
    h = mix_exec(h, w3);
    proof {
        done = done.push(w3);
        assert(done =~= file_words(f@));
    }
    h
}

/// Computes a snapshot's fingerprint over its capture time and entry list.
/// Repeated calls on the same values return the same fingerprint.
pub fn fingerprint_files(time: i64, files: &Vec<DownloadFile>) -> (h: u64)
    ensures
        h == spec_fingerprint(time, metas_of(files@)),
{
    let ghost ms = metas_of(files@);
    let w0 = word_i64(time);
    let mut h = mix_exec(FNV_OFFSET_BASIS, w0);
    proof {
        lemma_hash_words_push(FNV_OFFSET_BASIS, Seq::empty(), w0);
        assert(Seq::<u64>::empty().push(w0) =~= seq![w0]);
        assert(seq![w0] + files_words(ms.take(0)) =~= seq![w0]);
    }
    let mut i: usize = 0;
    while i < files.len()
        invariant
            i <= files@.len(),
            ms == metas_of(files@),
            h == hash_words(FNV_OFFSET_BASIS, seq![word_of_int(time as int)] + files_words(
                ms.take(i as int),
            )),
        decreases files@.len() - i,
    {
        let ghost pre = seq![word_of_int(time as int)] + files_words(ms.take(i as int));
        let h2 = hash_file(h, &files[i]);
        proof {
            assert(files@[i as int]@ == ms[i as int]);
            lemma_files_words_snoc(ms, i as int);
            lemma_hash_words_concat(FNV_OFFSET_BASIS, pre, file_words(ms[i as int]));
            assert(pre + file_words(ms[i as int]) =~= seq![word_of_int(time as int)]
                + files_words(ms.take(i + 1)));
        }
        h = h2;
        i = i + 1;
    }
    proof {
        assert(ms.take(files@.len() as int) =~= ms);
    }
    h
}

} // verus!
