//! Splitting what arrives on a connection into newline-delimited frames.
use vstd::prelude::*;

verus! {

/// The byte that ends a frame.
pub const NEWLINE: u8 = 10;

/// Reading `s` from its start: the frames completed so far, and the bytes of
/// the frame still open. A newline closes the open frame; an empty frame is
/// dropped.
pub open spec fn scan(s: Seq<u8>) -> (Seq<Seq<u8>>, Seq<u8>)
    decreases s.len(),
{
    if s.len() == 0 {
        (Seq::empty(), Seq::empty())
    } else {
        let (done, open) = scan(s.drop_last());
        if s.last() == NEWLINE {
            if open.len() > 0 {
                (done.push(open), Seq::empty())
            } else {
                (done, Seq::empty())
            }
        } else {
            (done, open.push(s.last()))
        }
    }
}

/// The non-empty frames of `s`, in order: the maximal runs of bytes other
/// than a newline.
pub open spec fn frames(s: Seq<u8>) -> Seq<Seq<u8>> {
    let (done, open) = scan(s);
    if open.len() > 0 {
        done.push(open)
    } else {
        done
    }
}

/// The frames one after the other.
pub open spec fn join(fs: Seq<Seq<u8>>) -> Seq<u8>
    decreases fs.len(),
{
    if fs.len() == 0 {
        Seq::empty()
    } else {
        join(fs.drop_last()) + fs.last()
    }
}

/// `s` with its newlines left out.
pub open spec fn strip_newlines(s: Seq<u8>) -> Seq<u8>
    decreases s.len(),
{
    if s.len() == 0 {
        Seq::empty()
    } else if s.last() == NEWLINE {
        strip_newlines(s.drop_last())
    } else {
        strip_newlines(s.drop_last()).push(s.last())
    }
}

/// A frame is non-empty and holds no newline.
pub open spec fn is_frame(f: Seq<u8>) -> bool {
    f.len() > 0 && !f.contains(NEWLINE)
}

proof fn lemma_scan(s: Seq<u8>)
    ensures
        forall|i: int| 0 <= i < scan(s).0.len() ==> is_frame(#[trigger] scan(s).0[i]),
        !scan(s).1.contains(NEWLINE),
        join(scan(s).0) + scan(s).1 == strip_newlines(s),
    decreases s.len(),
{
    if s.len() > 0 {
        let p = s.drop_last();
        lemma_scan(p);
        let (done, open) = scan(p);
        if s.last() == NEWLINE {
            if open.len() > 0 {
                let d2 = done.push(open);
                assert(d2.drop_last() =~= done);
                assert(join(d2) == join(done) + open);
                assert forall|i: int| 0 <= i < d2.len() implies is_frame(#[trigger] d2[i]) by {
                    if i < done.len() {
                        assert(d2[i] == done[i]);
                    }
                }
            }
            assert(join(scan(s).0) + scan(s).1 =~= strip_newlines(s));
        } else {
            let o2 = open.push(s.last());
            assert(!o2.contains(NEWLINE)) by {
                assert forall|i: int| 0 <= i < o2.len() implies o2[i] != NEWLINE by {
                    if i < open.len() {
                        assert(o2[i] == open[i]);
                    }
                }
            }
            assert(join(done) + o2 =~= (join(done) + open).push(s.last()));
        }
    } else {
        assert(join(scan(s).0) + scan(s).1 =~= strip_newlines(s));
    }
}

/// Every frame is non-empty and holds no newline, and the frames one after
/// the other are the input with its newlines left out.
pub proof fn lemma_frames(s: Seq<u8>)
    ensures
        forall|i: int| 0 <= i < frames(s).len() ==> is_frame(#[trigger] frames(s)[i]),
        join(frames(s)) == strip_newlines(s),
{
    lemma_scan(s);
    let (done, open) = scan(s);
    if open.len() > 0 {
        let d2 = done.push(open);
        assert(d2.drop_last() =~= done);
        assert forall|i: int| 0 <= i < d2.len() implies is_frame(#[trigger] d2[i]) by {
            if i < done.len() {
                assert(d2[i] == done[i]);
            }
        }
    } else {
        assert(join(done) + open =~= join(done));
    }
}

proof fn lemma_scan_without_newline(s: Seq<u8>)
    requires
        !s.contains(NEWLINE),
    ensures
        scan(s) == (Seq::<Seq<u8>>::empty(), s),
    decreases s.len(),
{
    if s.len() > 0 {
        let p = s.drop_last();
        assert(!p.contains(NEWLINE)) by {
            if p.contains(NEWLINE) {
                let i = choose|i: int| 0 <= i < p.len() && p[i] == NEWLINE;
                assert(s[i] == NEWLINE);
            }
        }
        lemma_scan_without_newline(p);
        assert(s[s.len() - 1] != NEWLINE);
        assert(p.push(s.last()) =~= s);
    } else {
        assert(s =~= Seq::<u8>::empty());
    }
}

/// Bytes that hold no newline make a single frame: the bytes themselves
/// (none at all when there are no bytes).
pub proof fn law_frame_without_newline(s: Seq<u8>)
    requires
        !s.contains(NEWLINE),
    ensures
        s.len() > 0 ==> frames(s) == seq![s],
        s.len() == 0 ==> frames(s) == Seq::<Seq<u8>>::empty(),
{
    lemma_scan_without_newline(s);
    assert(Seq::<Seq<u8>>::empty().push(s) =~= seq![s]);
}

proof fn lemma_scan_after_newline(a: Seq<u8>, b: Seq<u8>)
    ensures
        scan(a + seq![NEWLINE] + b) == (frames(a) + scan(b).0, scan(b).1),
    decreases b.len(),
{
    let x = a + seq![NEWLINE] + b;
    if b.len() == 0 {
        assert(x.drop_last() =~= a);
        assert(frames(a) + Seq::<Seq<u8>>::empty() =~= frames(a));
    } else {
        let b2 = b.drop_last();
        lemma_scan_after_newline(a, b2);
        assert(x.drop_last() =~= a + seq![NEWLINE] + b2);
        assert(x.last() == b.last());
        let (d, o) = scan(b2);
        assert((frames(a) + d).push(o) =~= frames(a) + d.push(o));
    }
}

/// The frames of two pieces of input joined by a newline are the frames of
/// the first piece followed by those of the second: a frame never reaches
/// across a newline, and a newline always ends one.
pub proof fn law_frames_split_at_newline(a: Seq<u8>, b: Seq<u8>)
    ensures
        frames(a + seq![NEWLINE] + b) == frames(a) + frames(b),
{
    lemma_scan_after_newline(a, b);
    let (d, o) = scan(b);
    assert((frames(a) + d).push(o) =~= frames(a) + d.push(o));
}

/// Splits `bytes` at each newline and leaves out the empty pieces.
pub fn split_frames(bytes: &[u8]) -> (fs: Vec<Vec<u8>>)
    ensures
        fs.deep_view() == frames(bytes@),
{
    let mut done: Vec<Vec<u8>> = Vec::new();
    let mut open: Vec<u8> = Vec::new();
    let n = bytes.len();
    let mut i: usize = 0;
    while i < n
        invariant
            i <= n,
            n == bytes@.len(),
            (done.deep_view(), open@) == scan(bytes@.take(i as int)),
        decreases n - i,
    {
        let b = bytes[i];
        let ghost before = done.deep_view();
        assert(bytes@.take(i + 1).drop_last() =~= bytes@.take(i as int));
        if b == NEWLINE {
            if open.len() > 0 {
                let piece = open;
                open = Vec::new();
                assert(piece.deep_view() =~= piece@);
                done.push(piece);
                assert(done.deep_view() =~= before.push(piece@));
            }
        } else {
            open.push(b);
        }
        i = i + 1;
    }
    assert(bytes@.take(n as int) =~= bytes@);
    if open.len() > 0 {
        let ghost before = done.deep_view();
        let piece = open;
        assert(piece.deep_view() =~= piece@);
        done.push(piece);
        assert(done.deep_view() =~= before.push(piece@));
    }
    done
}

} // verus!
