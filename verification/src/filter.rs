use vstd::prelude::*;

use crate::frame::Frame;
use crate::frame::FrameData;
use crate::pattern::Pattern;
use crate::pattern::any_matches;
use crate::pattern::matches_any;

verus! {

/// Whether the file blocklist excludes `f`: the list is non-empty, the frame
/// has a file, and some pattern matches that file. A frame without a file is
/// never excluded by the file blocklist.
pub open spec fn excluded_by_file(f: FrameData, file_blocklist: Seq<Seq<char>>) -> bool {
    file_blocklist.len() > 0 && f.file is Some && any_matches(file_blocklist, f.file->0)
}

/// Whether the name blocklist excludes `f`: the list is non-empty and some
/// pattern matches the function symbol.
pub open spec fn excluded_by_name(f: FrameData, name_blocklist: Seq<Seq<char>>) -> bool {
    name_blocklist.len() > 0 && any_matches(name_blocklist, f.function)
}

/// Whether `f` survives filtering: neither blocklist excludes it. An empty
/// blocklist excludes nothing.
pub open spec fn keep(
    f: FrameData,
    name_blocklist: Seq<Seq<char>>,
    file_blocklist: Seq<Seq<char>>,
) -> bool {
    !excluded_by_file(f, file_blocklist) && !excluded_by_name(f, name_blocklist)
}

/// The frames of `frames` that survive filtering, in their original order.
pub open spec fn filter_frames(
    frames: Seq<FrameData>,
    name_blocklist: Seq<Seq<char>>,
    file_blocklist: Seq<Seq<char>>,
) -> Seq<FrameData>
    decreases frames.len(),
{
    if frames.len() == 0 {
        Seq::empty()
    } else {
        let rest = filter_frames(frames.drop_first(), name_blocklist, file_blocklist);
        if keep(frames[0], name_blocklist, file_blocklist) {
            seq![frames[0]] + rest
        } else {
            rest
        }
    }
}

/// Remove every frame that a blocklist excludes, keeping the survivors in
/// their original order. A frame is excluded when the file blocklist is
/// non-empty, the frame has a file, and some file pattern matches it; or
/// else when the name blocklist is non-empty and some name pattern matches
/// the function symbol. Empty blocklists exclude nothing.
pub fn filter(
    frames: &Vec<Frame>,
    name_blocklist: &[Pattern],
    file_blocklist: &[Pattern],
) -> (r: Vec<Frame>)
    ensures
        r.deep_view() == filter_frames(
            frames.deep_view(),
            name_blocklist.deep_view(),
            file_blocklist.deep_view(),
        ),
{
    let ghost fs = frames.deep_view();
    let ghost nbl = name_blocklist.deep_view();
    let ghost fbl = file_blocklist.deep_view();
    let mut r: Vec<Frame> = Vec::new();
    let mut i: usize = 0;
    proof {
        assert(r.deep_view() =~= Seq::<FrameData>::empty());
        assert(fs.skip(0) =~= fs);
        assert(Seq::<FrameData>::empty() + filter_frames(fs, nbl, fbl) =~= filter_frames(
            fs,
            nbl,
            fbl,
        ));
    }
    while i < frames.len()
        invariant
            0 <= i <= frames.len(),
            fs == frames.deep_view(),
            nbl == name_blocklist.deep_view(),
            fbl == file_blocklist.deep_view(),
            filter_frames(fs, nbl, fbl) == r.deep_view() + filter_frames(
                fs.skip(i as int),
                nbl,
                fbl,
            ),
        decreases frames.len() - i,
    {
        let f = &frames[i];
        proof {
            assert(fs.skip(i as int).drop_first() =~= fs.skip(i + 1));
            assert(fs.skip(i as int)[0] == fs[i as int]);
        }
        let excluded_file = match &f.file {
            Some(file) => file_blocklist.len() > 0 && matches_any(file_blocklist, file.as_str()),
            None => false,
        };
        if excluded_file {
            assert(!keep(fs[i as int], nbl, fbl));
        } else {
            let excluded_name = name_blocklist.len() > 0 && matches_any(
                name_blocklist,
                f.function.as_str(),
            );
            if !excluded_name {
                assert(keep(fs[i as int], nbl, fbl));
                let ghost old_r = r.deep_view();
                r.push(f.clone());
                proof {
                    assert(r.deep_view() =~= old_r + seq![fs[i as int]]);
                    assert(old_r + (seq![fs[i as int]] + filter_frames(fs.skip(i + 1), nbl, fbl))
                        =~= (old_r + seq![fs[i as int]]) + filter_frames(fs.skip(i + 1), nbl, fbl));
                }
            } else {
                assert(!keep(fs[i as int], nbl, fbl));
            }
        }
        i = i + 1;
    }
    proof {
        assert(fs.skip(i as int) =~= Seq::<FrameData>::empty());
        assert(r.deep_view() + Seq::<FrameData>::empty() =~= r.deep_view());
    }
    r
}

/// Whether `a` is a subsequence of `b`: all of `a`'s elements occur in `b`,
/// in the same relative order.
pub open spec fn is_subsequence_of(a: Seq<FrameData>, b: Seq<FrameData>) -> bool
    decreases b.len(),
{
    if a.len() == 0 {
        true
    } else if b.len() == 0 {
        false
    } else {
        (a[0] == b[0] && is_subsequence_of(a.drop_first(), b.drop_first())) || is_subsequence_of(
            a,
            b.drop_first(),
        )
    }
}

/// Order preservation: for any frame sequence and any blocklists, the
/// filtered output is a subsequence of the input, in the same relative
/// order. Filtering only removes frames; it never reorders or duplicates.
pub proof fn lemma_filter_preserves_order(
    frames: Seq<FrameData>,
    name_blocklist: Seq<Seq<char>>,
    file_blocklist: Seq<Seq<char>>,
)
    ensures
        is_subsequence_of(filter_frames(frames, name_blocklist, file_blocklist), frames),
    decreases frames.len(),
{
    if frames.len() > 0 {
        lemma_filter_preserves_order(frames.drop_first(), name_blocklist, file_blocklist);
        let rest = filter_frames(frames.drop_first(), name_blocklist, file_blocklist);
        if keep(frames[0], name_blocklist, file_blocklist) {
            let out = seq![frames[0]] + rest;
            assert(out[0] == frames[0]);
            assert(out.drop_first() =~= rest);
        }
    }
}

/// Empty blocklist identity: with two empty blocklists every frame survives,
/// and the output is the input unchanged.
pub proof fn lemma_filter_empty_identity(frames: Seq<FrameData>)
    ensures
        filter_frames(frames, Seq::empty(), Seq::empty()) == frames,
    decreases frames.len(),
{
    if frames.len() > 0 {
        lemma_filter_empty_identity(frames.drop_first());
        assert(keep(frames[0], Seq::empty(), Seq::empty()));
        assert(seq![frames[0]] + frames.drop_first() =~= frames);
    }
}

/// File-exclusion precedence: a frame whose file the file blocklist matches
/// is excluded, whatever the name blocklist says of its function symbol.
pub proof fn lemma_file_exclusion_precedence(
    f: FrameData,
    name_blocklist: Seq<Seq<char>>,
    file_blocklist: Seq<Seq<char>>,
)
    requires
        excluded_by_file(f, file_blocklist),
    ensures
        !keep(f, name_blocklist, file_blocklist),
{
}

/// Missing-file immunity: a frame without a file is never excluded by the
/// file blocklist, however large; only the name blocklist can exclude it.
pub proof fn lemma_missing_file_immunity(
    f: FrameData,
    name_blocklist: Seq<Seq<char>>,
    file_blocklist: Seq<Seq<char>>,
)
    requires
        f.file is None,
    ensures
        keep(f, name_blocklist, file_blocklist) <==> !excluded_by_name(f, name_blocklist),
{
}

/// Every frame of the filtered output survives both blocklists: none that a
/// blocklist excludes is ever in the output.
pub proof fn lemma_filter_output_kept(
    frames: Seq<FrameData>,
    name_blocklist: Seq<Seq<char>>,
    file_blocklist: Seq<Seq<char>>,
)
    ensures
        forall|j: int|
            0 <= j < filter_frames(frames, name_blocklist, file_blocklist).len() ==> keep(
                #[trigger] filter_frames(frames, name_blocklist, file_blocklist)[j],
                name_blocklist,
                file_blocklist,
            ),
    decreases frames.len(),
{
    if frames.len() > 0 {
        lemma_filter_output_kept(frames.drop_first(), name_blocklist, file_blocklist);
        let rest = filter_frames(frames.drop_first(), name_blocklist, file_blocklist);
        if keep(frames[0], name_blocklist, file_blocklist) {
            let out = seq![frames[0]] + rest;
            assert(forall|j: int| 1 <= j < out.len() ==> out[j] == rest[j - 1]);
        }
    }
}

} // verus!
