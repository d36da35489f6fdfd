//! Merging an event's own fields with its enclosing context frames.
//!
//! An event is merged with the chain of named context frames that are
//! active when it is emitted. The event's own fields always win; among
//! frames, the nearest (innermost) enclosing frame wins. The frame
//! names also yield the `spans` string, joined outermost first.

use vstd::prelude::*;

use crate::fields::{has_key, lookup, EntryView, FieldMap};
use crate::strutil::{chars_to_string, join_comma, lemma_join_comma_snoc, push_str_chars};

verus! {

/// The mathematical model of a context frame.
pub struct ContextFrameView {
    /// The frame's name, as it appears in `spans`.
    pub name: Seq<char>,
    /// The frame's own fields.
    pub fields: Seq<EntryView>,
}

/// One named, nested unit of work with its own fields. Frames are
/// pushed when a unit of work begins and popped, last in first out,
/// when it ends; a frame chain is held as a vector whose first element
/// is the outermost frame and whose last element is the innermost.
#[derive(Clone, Debug)]
pub struct ContextFrame {
    /// The frame's name, as it appears in `spans`.
    pub name: String,
    /// The frame's own fields.
    pub fields: FieldMap,
}

impl View for ContextFrame {
    type V = ContextFrameView;

    open spec fn view(&self) -> ContextFrameView {
        ContextFrameView { name: self.name@, fields: self.fields@ }
    }
}

impl DeepView for ContextFrame {
    type V = ContextFrameView;

    open spec fn deep_view(&self) -> ContextFrameView {
        self.view()
    }
}

impl ContextFrame {
    /// A frame with the given name and fields.
    pub fn new(name: String, fields: FieldMap) -> (r: ContextFrame)
        ensures
            r@.name == name@,
            r@.fields == fields@,
    {
        ContextFrame { name, fields }
    }
}

/// Merge one frame's fields into an accumulated map: walking the
/// frame's entries in order, an entry is appended only when its key is
/// not yet bound.
pub open spec fn merge_frame(acc: Seq<EntryView>, frame: Seq<EntryView>) -> Seq<EntryView>
    decreases frame.len(),
{
    if frame.len() == 0 {
        acc
    } else {
        let acc2 = if has_key(acc, frame[0].0) {
            acc
        } else {
            acc.push(frame[0])
        };
        merge_frame(acc2, frame.drop_first())
    }
}

/// The full merged map of an event: the event's own fields, then each
/// frame merged innermost first, so that the event wins over every
/// frame and a nearer frame wins over a farther one. `frames` is
/// ordered outermost first.
pub open spec fn merge_frames(event_fields: Seq<EntryView>, frames: Seq<ContextFrameView>) -> Seq<
    EntryView,
>
    decreases frames.len(),
{
    if frames.len() == 0 {
        event_fields
    } else {
        merge_frame(merge_frames(event_fields, frames.drop_first()), frames[0].fields)
    }
}

/// The `spans` string of a frame chain: the frame names joined
/// outermost first by commas; empty when no frame is active.
pub open spec fn spec_spans(frames: Seq<ContextFrameView>) -> Seq<char> {
    join_comma(frames.map_values(|f: ContextFrameView| f.name))
}

/// Looking a key up after a push: an existing binding is unchanged, a
/// pushed binding is found only when nothing earlier binds the key.
proof fn lemma_lookup_push(s: Seq<EntryView>, p: EntryView, k: Seq<char>)
    ensures
        lookup(s.push(p), k) == if has_key(s, k) {
            lookup(s, k)
        } else if p.0 == k {
            Some(p.1)
        } else {
            None::<crate::fields::FieldValueView>
        },
    decreases s.len(),
{
    let pushed = s.push(p);
    if s.len() == 0 {
        assert(pushed.drop_first() =~= Seq::<EntryView>::empty());
    } else {
        assert(pushed.drop_first() =~= s.drop_first().push(p));
        lemma_lookup_push(s.drop_first(), p, k);
    }
}

/// Merging a frame never changes a key that is already bound.
proof fn lemma_merge_frame_existing(acc: Seq<EntryView>, frame: Seq<EntryView>, k: Seq<char>)
    requires
        has_key(acc, k),
    ensures
        lookup(merge_frame(acc, frame), k) == lookup(acc, k),
    decreases frame.len(),
{
    if frame.len() > 0 {
        let acc2 = if has_key(acc, frame[0].0) {
            acc
        } else {
            acc.push(frame[0])
        };
        lemma_lookup_push(acc, frame[0], k);
        lemma_merge_frame_existing(acc2, frame.drop_first(), k);
    }
}

/// Merging a frame binds an unbound key exactly as the frame binds it.
proof fn lemma_merge_frame_absent(acc: Seq<EntryView>, frame: Seq<EntryView>, k: Seq<char>)
    requires
        !has_key(acc, k),
    ensures
        lookup(merge_frame(acc, frame), k) == lookup(frame, k),
    decreases frame.len(),
{
    if frame.len() > 0 {
        let acc2 = if has_key(acc, frame[0].0) {
            acc
        } else {
            acc.push(frame[0])
        };
        lemma_lookup_push(acc, frame[0], k);
        if frame[0].0 == k {
            lemma_merge_frame_existing(acc2, frame.drop_first(), k);
        } else {
            lemma_merge_frame_absent(acc2, frame.drop_first(), k);
        }
    }
}

/// A key bound neither by the event nor by any frame is not bound by
/// the merged map.
proof fn lemma_merge_frames_none(
    event_fields: Seq<EntryView>,
    frames: Seq<ContextFrameView>,
    k: Seq<char>,
)
    requires
        !has_key(event_fields, k),
        forall|j: int| 0 <= j < frames.len() ==> !has_key(#[trigger] frames[j].fields, k),
    ensures
        !has_key(merge_frames(event_fields, frames), k),
    decreases frames.len(),
{
    if frames.len() > 0 {
        lemma_merge_frames_none(event_fields, frames.drop_first(), k);
        let inner = merge_frames(event_fields, frames.drop_first());
        lemma_merge_frame_absent(inner, frames[0].fields, k);
    }
}

/// A field set on the event itself keeps the event's own value in the
/// merged map, whatever any enclosing frame binds it to.
pub proof fn lemma_event_field_wins(
    event_fields: Seq<EntryView>,
    frames: Seq<ContextFrameView>,
    k: Seq<char>,
)
    requires
        has_key(event_fields, k),
    ensures
        lookup(merge_frames(event_fields, frames), k) == lookup(event_fields, k),
    decreases frames.len(),
{
    if frames.len() > 0 {
        lemma_event_field_wins(event_fields, frames.drop_first(), k);
        let inner = merge_frames(event_fields, frames.drop_first());
        lemma_merge_frame_existing(inner, frames[0].fields, k);
    }
}

/// A field absent from the event takes its value from the innermost
/// enclosing frame that binds it: frame `i` wins whenever no frame
/// nested more deeply (at a larger index) binds the key.
pub proof fn lemma_innermost_frame_wins(
    event_fields: Seq<EntryView>,
    frames: Seq<ContextFrameView>,
    k: Seq<char>,
    i: int,
)
    requires
        !has_key(event_fields, k),
        0 <= i < frames.len(),
        has_key(frames[i].fields, k),
        forall|j: int| i < j < frames.len() ==> !has_key(#[trigger] frames[j].fields, k),
    ensures
        lookup(merge_frames(event_fields, frames), k) == lookup(frames[i].fields, k),
    decreases frames.len(),
{
    let inner = merge_frames(event_fields, frames.drop_first());
    if i == 0 {
        assert(forall|j: int|
            0 <= j < frames.drop_first().len() ==> !has_key(
                #[trigger] frames.drop_first()[j].fields,
                k,
            ));
        lemma_merge_frames_none(event_fields, frames.drop_first(), k);
        lemma_merge_frame_absent(inner, frames[0].fields, k);
    } else {
        lemma_innermost_frame_wins(event_fields, frames.drop_first(), k, i - 1);
        lemma_merge_frame_existing(inner, frames[0].fields, k);
    }
}

/// Merge one frame's fields into `acc`, appending entries whose keys
/// are not yet bound.
fn merge_one_frame(acc: &mut FieldMap, frame: &FieldMap)
    ensures
        final(acc)@ == merge_frame(old(acc)@, frame@),
{
    let n = frame.len();
    proof {
        assert(frame@.subrange(0, 0) =~= Seq::<EntryView>::empty());
    }
    for i in 0..n
        invariant
            n == frame@.len(),
            acc@ == merge_frame(old(acc)@, frame@.subrange(0, i as int)),
    {
        let entry = frame.entry_at(i);
        if !acc.contains_key(&entry.0) {
            acc.push(entry.0.clone(), entry.1.duplicate());
        }
        proof {
            lemma_merge_frame_snoc(old(acc)@, frame@.subrange(0, i as int), frame@[i as int]);
            assert(frame@.subrange(0, i + 1) =~= frame@.subrange(0, i as int).push(
                frame@[i as int],
            ));
        }
    }
    proof {
        assert(frame@.subrange(0, n as int) =~= frame@);
    }
}

/// Merging one more entry appends it exactly when its key is unbound.
proof fn lemma_merge_frame_snoc(acc: Seq<EntryView>, frame: Seq<EntryView>, p: EntryView)
    ensures
        merge_frame(acc, frame.push(p)) == ({
            let m = merge_frame(acc, frame);
            if has_key(m, p.0) {
                m
            } else {
                m.push(p)
            }
        }),
    decreases frame.len(),
{
    let pushed = frame.push(p);
    if frame.len() == 0 {
        assert(pushed.drop_first() =~= Seq::<EntryView>::empty());
        let acc2 = if has_key(acc, p.0) {
            acc
        } else {
            acc.push(p)
        };
        assert(merge_frame(acc2, pushed.drop_first()) == acc2);
        assert(merge_frame(acc, pushed) == acc2);
    } else {
        assert(pushed.drop_first() =~= frame.drop_first().push(p));
        let acc2 = if has_key(acc, frame[0].0) {
            acc
        } else {
            acc.push(frame[0])
        };
        lemma_merge_frame_snoc(acc2, frame.drop_first(), p);
    }
}

/// Compute the merged field map of an event: its own fields first,
/// then each enclosing frame's fields, innermost frame first, adding
/// only keys not yet present.
pub fn merge_fields(event_fields: &FieldMap, frames: &Vec<ContextFrame>) -> (r: FieldMap)
    ensures
        r@ == merge_frames(event_fields@, frames.deep_view()),
{
    let ghost frames_v = frames.deep_view();
    let mut acc = event_fields.duplicate();
    let n = frames.len();
    let mut j = n;
    proof {
        assert(frames_v.subrange(n as int, n as int) =~= Seq::<ContextFrameView>::empty());
    }
    while j > 0
        invariant
            j <= n,
            n == frames@.len(),
            frames_v == frames.deep_view(),
            acc@ == merge_frames(event_fields@, frames_v.subrange(j as int, n as int)),
        decreases j,
    {
        j = j - 1;
        merge_one_frame(&mut acc, &frames[j].fields);
        proof {
            let rest = frames_v.subrange(j + 1, n as int);
            let cur = frames_v.subrange(j as int, n as int);
            assert(cur[0] == frames_v[j as int]);
            assert(cur.drop_first() =~= rest);
        }
    }
    proof {
        assert(frames_v.subrange(0, n as int) =~= frames_v);
    }
    acc
}

/// Build the `spans` string: the active frame names, outermost first,
/// joined by commas; the empty string when no frame is active.
pub fn spans_string(frames: &Vec<ContextFrame>) -> (r: String)
    ensures
        r@ == spec_spans(frames.deep_view()),
        frames@.len() == 0 ==> r@ == Seq::<char>::empty(),
{
    let ghost names = frames.deep_view().map_values(|f: ContextFrameView| f.name);
    let mut out: Vec<char> = Vec::new();
    let n = frames.len();
    if n == 0 {
        proof {
            assert(names =~= Seq::<Seq<char>>::empty());
            assert(out@ =~= spec_spans(frames.deep_view()));
        }
        return chars_to_string(&out);
    }
    push_str_chars(&mut out, frames[0].name.as_str());
    proof {
        assert(names.subrange(0, 1) =~= seq![names[0]]);
        assert(out@ =~= join_comma(names.subrange(0, 1)));
    }
    for i in 1..n
        invariant
            1 <= i <= n,
            n == frames@.len(),
            names == frames.deep_view().map_values(|f: ContextFrameView| f.name),
            out@ == join_comma(names.subrange(0, i as int)),
    {
        push_str_chars(&mut out, ",");
        push_str_chars(&mut out, frames[i].name.as_str());
        proof {
            lemma_join_comma_snoc(names.subrange(0, i as int), names[i as int]);
            assert(names.subrange(0, i + 1) =~= names.subrange(0, i as int).push(names[i as int]));
            assert(out@ =~= join_comma(names.subrange(0, i + 1)));
        }
    }
    proof {
        assert(names.subrange(0, n as int) =~= names);
    }
    chars_to_string(&out)
}

} // verus!
