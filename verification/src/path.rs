//! The path resolver: a validated dot-path mutation over the scratch
//! workspace. The first segment of a path is the root selector and must name
//! the one mutable binding, `context`; the remaining segments descend into
//! the workspace, vivifying missing or non-object nodes along the way.

use vstd::prelude::*;
use crate::errors::ActionError;
use crate::json::{
    get_in, json_view, lemma_set_then_get, set_in, set_segments, segs_view, get_segments,
    JsonValue, JsonView,
};

verus! {

/// The pieces of `s` between `'.'` characters, in order, empty pieces kept:
/// splitting the empty text gives one empty piece.
pub open spec fn split_dots(s: Seq<char>) -> Seq<Seq<char>>
    decreases s.len(),
{
    if s.len() == 0 {
        seq![Seq::<char>::empty()]
    } else if s[0] == '.' {
        seq![Seq::<char>::empty()] + split_dots(s.drop_first())
    } else {
        let rest = split_dots(s.drop_first());
        seq![seq![s[0]] + rest[0]] + rest.drop_first()
    }
}

pub proof fn lemma_split_dots_nonempty(s: Seq<char>)
    ensures
        split_dots(s).len() >= 1,
    decreases s.len(),
{
    if s.len() == 0 {
    } else {
        lemma_split_dots_nonempty(s.drop_first());
    }
}

/// A path is malformed when it carries no key below the root selector or when
/// any of its segments is empty: such a path is rejected as `InvalidPath`.
pub open spec fn path_malformed(s: Seq<char>) -> bool {
    let segs = split_dots(s);
    segs.len() < 2 || exists|i: int| 0 <= i < segs.len() && segs[i].len() == 0
}

/// The root selector of a well-shaped path must be the mutable binding name.
pub open spec fn path_root_is_context(s: Seq<char>) -> bool {
    split_dots(s)[0] == "context"@
}

/// Relies on `str::split` with a `char` pattern: it yields the pieces of the
/// text between occurrences of the separator, in order, keeping empty pieces,
/// and yields one empty piece for the empty text.
#[verifier::external_body]
fn split_on_dots(s: &str) -> (r: Vec<String>)
    ensures
        segs_view(r@) == split_dots(s@),
{
    s.split('.').map(|piece| piece.to_owned()).collect()
}

/// Apply one assignment mutation: write `value` at `full_path` inside the
/// workspace `temp`. Fails with `InvalidPath` on a malformed path and with
/// `NotMutable` when the root selector is not `context`; in either case the
/// workspace is untouched.
pub fn set_value_by_path(temp: &mut JsonValue, full_path: &str, value: JsonValue) -> (r: Result<
    (),
    ActionError,
>)
    ensures
        path_malformed(full_path@) ==> *final(temp) == *old(temp) && (r matches Err(e)
            && e matches ActionError::InvalidPath(p) && p@ == full_path@),
        !path_malformed(full_path@) && !path_root_is_context(full_path@) ==> *final(temp) == *old(
            temp,
        ) && (r matches Err(e) && e matches ActionError::NotMutable(p) && p@ == full_path@),
        !path_malformed(full_path@) && path_root_is_context(full_path@) ==> r is Ok && json_view(
            *final(temp),
        ) == set_in(json_view(*old(temp)), split_dots(full_path@).skip(1), json_view(value)),
{
    let segs = split_on_dots(full_path);
    proof {
        lemma_split_dots_nonempty(full_path@);
        assert(segs_view(segs@).len() == segs@.len());
    }
    if segs.len() < 2 {
        proof {
            assert(path_malformed(full_path@));
        }
        return Result::Err(ActionError::InvalidPath(full_path.to_owned()));
    }
    let mut j: usize = 0;
    while j < segs.len()
        invariant
            0 <= j <= segs@.len(),
            segs_view(segs@) == split_dots(full_path@),
            forall|q: int| 0 <= q < j ==> segs@[q]@.len() > 0,
        decreases segs@.len() - j,
    {
        if segs[j].as_str().is_empty() {
            proof {
                assert(split_dots(full_path@)[j as int] == segs@[j as int]@);
                assert(split_dots(full_path@)[j as int].len() == 0);
                assert(path_malformed(full_path@));
            }
            return Result::Err(ActionError::InvalidPath(full_path.to_owned()));
        }
        j = j + 1;
    }
    proof {
        assert(forall|q: int|
            0 <= q < split_dots(full_path@).len() ==> split_dots(full_path@)[q] == segs@[q]@);
        assert(!path_malformed(full_path@));
    }
    let context_name: String = "context".to_owned();
    if !(segs[0] == context_name) {
        proof {
            assert(split_dots(full_path@)[0] == segs@[0]@);
            assert(!path_root_is_context(full_path@));
        }
        return Result::Err(ActionError::NotMutable(full_path.to_owned()));
    }
    proof {
        assert(split_dots(full_path@)[0] == segs@[0]@);
        assert(path_root_is_context(full_path@));
    }
    let mut work = JsonValue::Null;
    core::mem::swap(temp, &mut work);
    let done = set_segments(work, &segs, 1, value);
    *temp = done;
    proof {
        assert(segs_view(segs@).skip(1) =~= split_dots(full_path@).skip(1));
    }
    Result::Ok(())
}

/// Read the value at `full_path` from the workspace `temp`: the counterpart
/// of `set_value_by_path`, under the same path discipline.
pub fn get_value_by_path<'a>(temp: &'a JsonValue, full_path: &str) -> (r: Option<&'a JsonValue>)
    ensures
        match r {
            Option::Some(c) => !path_malformed(full_path@) && path_root_is_context(full_path@)
                && get_in(json_view(*temp), split_dots(full_path@).skip(1)) == Option::Some(
                json_view(*c),
            ),
            Option::None => path_malformed(full_path@) || !path_root_is_context(full_path@)
                || get_in(json_view(*temp), split_dots(full_path@).skip(1)) is None,
        },
{
    let segs = split_on_dots(full_path);
    proof {
        lemma_split_dots_nonempty(full_path@);
        assert(segs_view(segs@).len() == segs@.len());
    }
    if segs.len() < 2 {
        proof {
            assert(path_malformed(full_path@));
        }
        return Option::None;
    }
    let mut j: usize = 0;
    while j < segs.len()
        invariant
            0 <= j <= segs@.len(),
            segs_view(segs@) == split_dots(full_path@),
            forall|q: int| 0 <= q < j ==> segs@[q]@.len() > 0,
        decreases segs@.len() - j,
    {
        if segs[j].as_str().is_empty() {
            proof {
                assert(split_dots(full_path@)[j as int] == segs@[j as int]@);
                assert(split_dots(full_path@)[j as int].len() == 0);
                assert(path_malformed(full_path@));
            }
            return Option::None;
        }
        j = j + 1;
    }
    let context_name: String = "context".to_owned();
    if !(segs[0] == context_name) {
        proof {
            assert(split_dots(full_path@)[0] == segs@[0]@);
            assert(!path_root_is_context(full_path@));
        }
        return Option::None;
    }
    proof {
        assert(forall|q: int|
            0 <= q < split_dots(full_path@).len() ==> split_dots(full_path@)[q] == segs@[q]@);
        assert(!path_malformed(full_path@));
        assert(split_dots(full_path@)[0] == segs@[0]@);
        assert(path_root_is_context(full_path@));
    }
    let r = get_segments(temp, &segs, 1);
    proof {
        assert(segs_view(segs@).skip(1) =~= split_dots(full_path@).skip(1));
    }
    r
}

/// A text without separators is one single piece.
pub proof fn lemma_split_dots_whole(b: Seq<char>)
    requires
        forall|i: int| 0 <= i < b.len() ==> b[i] != '.',
    ensures
        split_dots(b) == seq![b],
    decreases b.len(),
{
    if b.len() == 0 {
        assert(split_dots(b) =~~= seq![b]);
    } else {
        lemma_split_dots_whole(b.drop_first());
        let rest = split_dots(b.drop_first());
        assert(rest[0] == b.drop_first());
        assert(rest.drop_first() =~= Seq::<Seq<char>>::empty());
        assert(seq![b[0]] + b.drop_first() =~= b);
        assert(split_dots(b) =~~= seq![b]);
    }
}

/// A text of two separator-free pieces around one separator splits into
/// exactly those two pieces: in particular, a path such as a root selector
/// followed by one key splits as the resolver's contract expects.
pub proof fn lemma_split_dots_pair(a: Seq<char>, b: Seq<char>)
    requires
        forall|i: int| 0 <= i < a.len() ==> a[i] != '.',
        forall|i: int| 0 <= i < b.len() ==> b[i] != '.',
    ensures
        split_dots(a + seq!['.'] + b) == seq![a, b],
    decreases a.len(),
{
    let s = a + seq!['.'] + b;
    if a.len() == 0 {
        assert(s[0] == '.');
        assert(s.drop_first() =~= b);
        lemma_split_dots_whole(b);
        assert(split_dots(s) =~~= seq![a, b]);
    } else {
        let a2 = a.drop_first();
        lemma_split_dots_pair(a2, b);
        assert(s[0] == a[0]);
        assert(s[0] != '.');
        assert(s.drop_first() =~= a2 + seq!['.'] + b);
        let rest = split_dots(s.drop_first());
        assert(rest == seq![a2, b]);
        assert(rest[0] == a2);
        assert(seq![s[0]] + a2 =~= a);
        assert(rest.drop_first() =~= seq![b]);
        assert(split_dots(s) =~~= seq![a, b]);
    }
}

/// Law: for every workspace, every well-shaped mutable path and every value,
/// writing the value at the path and then reading the same path yields the
/// value back.
pub proof fn lemma_path_write_then_read(t: JsonView, path: Seq<char>, v: JsonView)
    requires
        !path_malformed(path),
        path_root_is_context(path),
    ensures
        get_in(set_in(t, split_dots(path).skip(1), v), split_dots(path).skip(1)) == Option::Some(
            v,
        ),
{
    lemma_set_then_get(t, split_dots(path).skip(1), v);
}

} // verus!
