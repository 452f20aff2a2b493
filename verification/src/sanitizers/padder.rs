//! Reserved-name padding: a multi-pattern streaming matcher that inserts
//! one pad character the instant the characters consumed so far, from the
//! very start of the stream, exactly equal one of the configured reserved
//! names, and the stream then ends or continues with the configured
//! boundary character.
//!
//! For every reserved name the automaton keeps one cursor that advances on
//! each consumed character. A candidate dies permanently on its first
//! mismatch — a reserved-name check means "the name equals the whole
//! stream from its start", not "the name appears somewhere". A candidate
//! whose cursor reaches its end with every character agreeing sets the
//! shared `matched` flag; the pad decision is taken one step later,
//! against the stream end or the boundary character.

use vstd::prelude::*;

use crate::sanitizer::CharStream;
use crate::sanitizer::Sanitizer;
use crate::sanitizer::drain;
use crate::utils::text::copy_chars;

verus! {

/// The character sequences held by a vector of character vectors.
pub open spec fn views_of(names: Seq<Vec<char>>) -> Seq<Seq<char>> {
    names.map(|_i: int, n: Vec<char>| n@)
}

/// Does one of the reserved names equal the first `p` input characters?
pub open spec fn completes(names: Seq<Seq<char>>, input: Seq<char>, p: int) -> bool {
    exists|k: int| 0 <= k < names.len() && #[trigger] names[k] == input.take(p)
}

/// Is `s` one of the reserved names?
pub open spec fn is_reserved(names: Seq<Seq<char>>, s: Seq<char>) -> bool {
    exists|k: int| 0 <= k < names.len() && #[trigger] names[k] == s
}

/// Is the pad character emitted at the point where `p` input characters
/// have been consumed? It is exactly when the consumed characters equal a
/// reserved name and the stream ends there or continues with the boundary
/// character. At `p == 0` nothing has been consumed, so nothing can have
/// matched.
pub open spec fn pad_at(
    names: Seq<Seq<char>>,
    insert_before: Option<char>,
    input: Seq<char>,
    p: int,
) -> bool {
    &&& 1 <= p <= input.len()
    &&& completes(names, input, p)
    &&& (p == input.len() || insert_before == Some(input[p]))
}

/// The characters the padder still emits, given that `p` input characters
/// have been consumed and a full match is pending exactly when `matched`
/// is true.
pub open spec fn padder_from(
    names: Seq<Seq<char>>,
    insert_before: Option<char>,
    pad: char,
    input: Seq<char>,
    p: int,
    matched: bool,
) -> Seq<char>
    decreases input.len() - p,
{
    let emit_pad = matched && 1 <= p && (p >= input.len() || insert_before == Some(input[p]));
    let head: Seq<char> = if emit_pad {
        seq![pad]
    } else {
        Seq::empty()
    };
    if p < 0 || p >= input.len() {
        head
    } else {
        head + seq![input[p]] + padder_from(
            names,
            insert_before,
            pad,
            input,
            p + 1,
            completes(names, input, p + 1),
        )
    }
}

/// The whole output of the padder on `input`.
pub open spec fn padder_output(
    names: Seq<Seq<char>>,
    insert_before: Option<char>,
    pad: char,
    input: Seq<char>,
) -> Seq<char> {
    padder_from(names, insert_before, pad, input, 0, false)
}

/// A transformer that pads the stream with one extra character when the
/// stream equals a reserved name, so that the output never is one.
#[derive(Debug, Clone, PartialEq, Eq, Hash)]
pub struct Padder {
    pub names: Vec<Vec<char>>,
    pub insert_before: Option<char>,
    pub pad: char,
}

impl Padder {
    /// A padding transformer for the given reserved names, optional
    /// boundary character and pad character.
    pub fn new(names: Vec<Vec<char>>, insert_before: Option<char>, pad: char) -> (r: Self)
        ensures
            r.names == names,
            r.insert_before == insert_before,
            r.pad == pad,
    {
        Padder { names, insert_before, pad }
    }
}

impl Sanitizer for Padder {
    open spec fn spec_output(&self, input: Seq<char>) -> Seq<char> {
        padder_output(views_of(self.names@), self.insert_before, self.pad, input)
    }

    fn sanitize(self, input: &Vec<char>) -> (out: Vec<char>) {
        let it = PadderIter::new(copy_chars(input), self.names, self.insert_before, self.pad);
        drain(it)
    }
}

/// Do the reserved name and the input agree on every position below `p`
/// that the name has? While they do, the name's cursor is still alive.
pub open spec fn prefix_agrees(name: Seq<char>, input: Seq<char>, p: int) -> bool {
    forall|j: int| 0 <= j < p && j < name.len() ==> name[j] == input[j]
}

/// The streaming state of one padding pass: the input characters, how many
/// of them have been consumed, the reserved names with one dead flag each,
/// and whether a full match is pending.
#[derive(Debug, Clone)]
pub struct PadderIter {
    pub input: Vec<char>,
    pub pos: usize,
    pub names: Vec<Vec<char>>,
    pub dead: Vec<bool>,
    pub matched: bool,
    pub insert_before: Option<char>,
    pub pad: char,
}

impl PadderIter {
    /// A padding pass over `input`, positioned at its start, with every
    /// candidate alive.
    pub fn new(input: Vec<char>, names: Vec<Vec<char>>, insert_before: Option<char>, pad: char) -> (r:
        Self)
        ensures
            r.wf(),
            r.input == input,
            r.pos == 0,
            r.names == names,
            r.matched == false,
            r.insert_before == insert_before,
            r.pad == pad,
            r.future() == padder_output(views_of(names@), insert_before, pad, input@),
    {
        let n: usize = names.len();
        let mut dead: Vec<bool> = Vec::new();
        let mut i: usize = 0;
        while i < n
            invariant
                i <= n,
                dead@.len() == i,
                forall|k: int| 0 <= k < i ==> dead@[k] == false,
            decreases n - i,
        {
            dead.push(false);
            i += 1;
        }
        PadderIter { input, pos: 0, names, dead, matched: false, insert_before, pad }
    }
}

impl CharStream for PadderIter {
    open spec fn wf(&self) -> bool {
        &&& self.pos <= self.input@.len()
        &&& self.dead@.len() == self.names@.len()
        &&& forall|k: int|
            0 <= k < self.names@.len() ==> (!self.dead@[k] <==> prefix_agrees(
                views_of(self.names@)[k],
                self.input@,
                self.pos as int,
            ))
        &&& (self.matched ==> 1 <= self.pos)
    }

    open spec fn future(&self) -> Seq<char> {
        padder_from(
            views_of(self.names@),
            self.insert_before,
            self.pad,
            self.input@,
            self.pos as int,
            self.matched,
        )
    }

    fn next(&mut self) -> (r: Option<char>) {
        let ghost nv = views_of(old(self).names@);
        let ghost p: int = self.pos as int;
        // Pad decision, taken before the next character is consumed: if a
        // full match is pending and the stream ends here or continues with
        // the boundary character, emit the pad character now.
        if self.matched {
            let at_boundary: bool = if self.pos == self.input.len() {
                true
            } else {
                match self.insert_before {
                    Some(b) => self.input[self.pos] == b,
                    None => false,
                }
            };
            if at_boundary {
                self.matched = false;
                proof {
                    assert(old(self).future() =~= seq![self.pad] + self.future());
                }
                return Some(self.pad);
            }
        }
        if self.pos == self.input.len() {
            return None;
        }
        // Consume one character and advance every live candidate's cursor
        // against it: a mismatch kills the candidate for the rest of the
        // stream, a cursor that reaches its name's end marks the match.
        let c = self.input[self.pos];
        self.matched = false;
        let n: usize = self.names.len();
        let mut i: usize = 0;
        while i < n
            invariant
                n == self.names@.len(),
                i <= n,
                nv == views_of(self.names@),
                self.input == old(self).input,
                self.names == old(self).names,
                self.insert_before == old(self).insert_before,
                self.pad == old(self).pad,
                self.pos == old(self).pos,
                p == self.pos as int,
                p < self.input@.len(),
                c == self.input@[p],
                self.dead@.len() == n,
                forall|k: int|
                    i <= k < n ==> (!self.dead@[k] <==> prefix_agrees(nv[k], self.input@, p)),
                forall|k: int|
                    0 <= k < i ==> (!self.dead@[k] <==> prefix_agrees(nv[k], self.input@, p + 1)),
                self.matched <==> (exists|k: int|
                    0 <= k < i && #[trigger] nv[k] == self.input@.take(p + 1)),
            decreases n - i,
        {
            if !self.dead[i] {
                let name_len: usize = self.names[i].len();
                if self.pos < name_len {
                    let nc = self.names[i][self.pos];
                    if nc != c {
                        self.dead[i] = true;
                        proof {
                            assert(nv[i as int][p] != self.input@[p]);
                            assert(!prefix_agrees(nv[i as int], self.input@, p + 1));
                            assert(nv[i as int] != self.input@.take(p + 1)) by {
                                if nv[i as int] == self.input@.take(p + 1) {
                                    assert(self.input@.take(p + 1)[p] == self.input@[p]);
                                }
                            }
                        }
                    } else if self.pos + 1 == name_len {
                        self.matched = true;
                        proof {
                            assert(prefix_agrees(nv[i as int], self.input@, p));
                            assert(nv[i as int] =~= self.input@.take(p + 1)) by {
                                assert(forall|j: int|
                                    0 <= j < p ==> nv[i as int][j] == self.input@[j]);
                                assert(nv[i as int][p] == self.input@[p]);
                            }
                            assert(prefix_agrees(nv[i as int], self.input@, p + 1));
                        }
                    } else {
                        proof {
                            assert(prefix_agrees(nv[i as int], self.input@, p + 1));
                            assert(nv[i as int] != self.input@.take(p + 1)) by {
                                assert(nv[i as int].len() > p + 1);
                                assert(self.input@.take(p + 1).len() == p + 1);
                            }
                        }
                    }
                } else {
                    proof {
                        assert forall|j: int|
                            0 <= j < p + 1 && j < nv[i as int].len() implies nv[i as int][j]
                            == self.input@[j] by {
                            assert(j < p);
                        }
                        assert(prefix_agrees(nv[i as int], self.input@, p + 1));
                        assert(nv[i as int] != self.input@.take(p + 1)) by {
                            assert(nv[i as int].len() <= p);
                            assert(self.input@.take(p + 1).len() == p + 1);
                        }
                    }
                }
            } else {
                proof {
                    assert(!prefix_agrees(nv[i as int], self.input@, p));
                    assert(!prefix_agrees(nv[i as int], self.input@, p + 1)) by {
                        if prefix_agrees(nv[i as int], self.input@, p + 1) {
                            assert(forall|j: int|
                                0 <= j < p && j < nv[i as int].len() ==> nv[i as int][j] == self.input@[j]);
                        }
                    }
                    assert(nv[i as int] != self.input@.take(p + 1)) by {
                        if nv[i as int] == self.input@.take(p + 1) {
                            assert(forall|j: int|
                                0 <= j < p && j < nv[i as int].len() ==> nv[i as int][j] == self.input@.take(
                                    p + 1,
                                )[j]);
                            assert(prefix_agrees(nv[i as int], self.input@, p));
                        }
                    }
                }
            }
            i += 1;
        }
        proof {
            assert(self.matched <==> completes(nv, self.input@, p + 1));
        }
        self.pos += 1;
        proof {
            assert(old(self).future() =~= seq![c] + self.future());
        }
        Some(c)
    }
}

/// The number of points at or after `p` where the padder emits the pad
/// character.
pub open spec fn pad_count(
    names: Seq<Seq<char>>,
    insert_before: Option<char>,
    input: Seq<char>,
    p: int,
) -> int
    decreases input.len() - p,
{
    let here: int = if pad_at(names, insert_before, input, p) {
        1
    } else {
        0
    };
    if p < 0 || p >= input.len() {
        here
    } else {
        here + pad_count(names, insert_before, input, p + 1)
    }
}

/// No reserved name contains the boundary character. This holds in
/// particular whenever no boundary character is configured at all.
pub open spec fn boundary_free(names: Seq<Seq<char>>, insert_before: Option<char>) -> bool {
    match insert_before {
        None => true,
        Some(b) => forall|k: int, j: int|
            0 <= k < names.len() && 0 <= j < names[k].len() ==> #[trigger] names[k][j] != b,
    }
}

/// No reserved name begins with another reserved name followed by the
/// boundary character. This is the condition under which at most one pad
/// point can fire on any input: a second pad point would need the later
/// point's name to read "earlier name, then boundary, then more". It is
/// weaker than `boundary_free`: a name may contain the boundary
/// character, as long as the part before it is not itself reserved.
pub open spec fn boundary_compatible(names: Seq<Seq<char>>, insert_before: Option<char>) -> bool {
    match insert_before {
        None => true,
        Some(b) => forall|k: int, j: int|
            0 <= k < names.len() && 1 <= j < names[k].len() && names[k][j] == b
                ==> !is_reserved(names, #[trigger] names[k].take(j)),
    }
}

/// Names free of the boundary character are in particular compatible
/// with it.
pub proof fn lemma_boundary_free_compatible(names: Seq<Seq<char>>, insert_before: Option<char>)
    requires
        boundary_free(names, insert_before),
    ensures
        boundary_compatible(names, insert_before),
{
    match insert_before {
        None => {},
        Some(b) => {
            assert forall|k: int, j: int|
                0 <= k < names.len() && 1 <= j < names[k].len() && names[k][j] == b
                implies !is_reserved(names, #[trigger] names[k].take(j)) by {
                assert(names[k][j] != b);
            }
        },
    }
}

proof fn lemma_pad_count_nonneg(
    names: Seq<Seq<char>>,
    insert_before: Option<char>,
    input: Seq<char>,
    p: int,
)
    ensures
        pad_count(names, insert_before, input, p) >= 0,
    decreases input.len() - p,
{
    if !(p < 0 || p >= input.len()) {
        lemma_pad_count_nonneg(names, insert_before, input, p + 1);
    }
}

/// The padder's output length is its input length plus the number of pad
/// points.
proof fn lemma_padder_from_len(
    names: Seq<Seq<char>>,
    insert_before: Option<char>,
    pad: char,
    input: Seq<char>,
    p: int,
    matched: bool,
)
    requires
        0 <= p <= input.len(),
        matched == (1 <= p && completes(names, input, p)),
    ensures
        padder_from(names, insert_before, pad, input, p, matched).len() == input.len() - p
            + pad_count(names, insert_before, input, p),
    decreases input.len() - p,
{
    if p < input.len() {
        lemma_padder_from_len(
            names,
            insert_before,
            pad,
            input,
            p + 1,
            completes(names, input, p + 1),
        );
    }
}

/// Two distinct pad points cannot both fire under a compatible
/// configuration: the later point's name would begin with the earlier
/// point's name followed by the boundary character.
proof fn lemma_pad_at_exclusive(
    names: Seq<Seq<char>>,
    insert_before: Option<char>,
    input: Seq<char>,
    p: int,
    q: int,
)
    requires
        boundary_compatible(names, insert_before),
        p < q,
    ensures
        !(pad_at(names, insert_before, input, p) && pad_at(names, insert_before, input, q)),
{
    if pad_at(names, insert_before, input, p) && pad_at(names, insert_before, input, q) {
        let k = choose|k: int| 0 <= k < names.len() && #[trigger] names[k] == input.take(q);
        assert(p < input.len());
        assert(insert_before == Some(input[p]));
        assert(names[k][p] == input.take(q)[p]);
        assert(1 <= p < names[k].len());
        assert(names[k].take(p) =~= input.take(p));
        assert(is_reserved(names, names[k].take(p)));
    }
}

proof fn lemma_no_pad_after(
    names: Seq<Seq<char>>,
    insert_before: Option<char>,
    input: Seq<char>,
    p: int,
)
    requires
        0 <= p,
        forall|q: int| p <= q ==> !pad_at(names, insert_before, input, q),
    ensures
        pad_count(names, insert_before, input, p) == 0,
    decreases input.len() - p,
{
    if p < input.len() {
        lemma_no_pad_after(names, insert_before, input, p + 1);
    }
}

proof fn lemma_pad_count_le_one(
    names: Seq<Seq<char>>,
    insert_before: Option<char>,
    input: Seq<char>,
    p: int,
)
    requires
        boundary_compatible(names, insert_before),
        0 <= p,
    ensures
        pad_count(names, insert_before, input, p) <= 1,
    decreases input.len() - p,
{
    if p >= input.len() {
    } else if pad_at(names, insert_before, input, p) {
        assert forall|q: int| p + 1 <= q implies !pad_at(names, insert_before, input, q) by {
            if pad_at(names, insert_before, input, q) {
                lemma_pad_at_exclusive(names, insert_before, input, p, q);
            }
        }
        lemma_no_pad_after(names, insert_before, input, p + 1);
    } else {
        lemma_pad_count_le_one(names, insert_before, input, p + 1);
    }
}

proof fn lemma_pad_count_pos(
    names: Seq<Seq<char>>,
    insert_before: Option<char>,
    input: Seq<char>,
    p: int,
    q: int,
)
    requires
        0 <= p <= q,
        pad_at(names, insert_before, input, q),
    ensures
        pad_count(names, insert_before, input, p) >= 1,
    decreases input.len() - p,
{
    if p < q {
        assert(q <= input.len());
        lemma_pad_count_pos(names, insert_before, input, p + 1, q);
        lemma_pad_count_nonneg(names, insert_before, input, p + 1);
    } else {
        if p < input.len() {
            lemma_pad_count_nonneg(names, insert_before, input, p + 1);
        }
    }
}

/// Length bound: the padder's output is its input length plus the number
/// of pad points; under a compatible configuration — in particular one
/// whose reserved names are free of the boundary character, or one with
/// no boundary character at all — that number is zero or one, so the
/// output is at most one character longer than the input.
pub proof fn lemma_padder_length(
    names: Seq<Seq<char>>,
    insert_before: Option<char>,
    pad: char,
    input: Seq<char>,
)
    ensures
        padder_output(names, insert_before, pad, input).len() == input.len() + pad_count(
            names,
            insert_before,
            input,
            0,
        ),
        pad_count(names, insert_before, input, 0) >= 0,
        boundary_compatible(names, insert_before) ==> pad_count(names, insert_before, input, 0)
            <= 1,
        boundary_free(names, insert_before) ==> pad_count(names, insert_before, input, 0) <= 1,
{
    lemma_padder_from_len(names, insert_before, pad, input, 0, false);
    lemma_pad_count_nonneg(names, insert_before, input, 0);
    if boundary_free(names, insert_before) {
        lemma_boundary_free_compatible(names, insert_before);
    }
    if boundary_compatible(names, insert_before) {
        lemma_pad_count_le_one(names, insert_before, input, 0);
    }
}

/// Without a pad point from `p` on, the padder simply passes the rest of
/// the input through.
proof fn lemma_padder_from_id(
    names: Seq<Seq<char>>,
    insert_before: Option<char>,
    pad: char,
    input: Seq<char>,
    p: int,
    matched: bool,
)
    requires
        0 <= p <= input.len(),
        matched == (1 <= p && completes(names, input, p)),
        forall|q: int| p <= q ==> !pad_at(names, insert_before, input, q),
    ensures
        padder_from(names, insert_before, pad, input, p, matched) == input.skip(p),
    decreases input.len() - p,
{
    if p >= input.len() {
        assert(!pad_at(names, insert_before, input, p));
        assert(padder_from(names, insert_before, pad, input, p, matched) =~= input.skip(p));
    } else {
        lemma_padder_from_id(
            names,
            insert_before,
            pad,
            input,
            p + 1,
            completes(names, input, p + 1),
        );
        assert(!pad_at(names, insert_before, input, p));
        assert(padder_from(names, insert_before, pad, input, p, matched) =~= input.skip(p));
    }
}

/// With exactly one pad point, at `t`, the padder's output from `p` on is
/// the rest of the input with the pad character inserted before position
/// `t`.
proof fn lemma_padder_from_single(
    names: Seq<Seq<char>>,
    insert_before: Option<char>,
    pad: char,
    input: Seq<char>,
    p: int,
    matched: bool,
    t: int,
)
    requires
        0 <= p <= input.len(),
        p <= t,
        matched == (1 <= p && completes(names, input, p)),
        pad_at(names, insert_before, input, t),
        forall|q: int| p <= q && q != t ==> !pad_at(names, insert_before, input, q),
    ensures
        padder_from(names, insert_before, pad, input, p, matched) == input.subrange(p, t) + seq![
            pad,
        ] + input.skip(t),
    decreases input.len() - p,
{
    if p == t {
        if p >= input.len() {
            assert(padder_from(names, insert_before, pad, input, p, matched) =~= input.subrange(
                p,
                t,
            ) + seq![pad] + input.skip(t));
        } else {
            lemma_padder_from_id(
                names,
                insert_before,
                pad,
                input,
                p + 1,
                completes(names, input, p + 1),
            );
            assert(padder_from(names, insert_before, pad, input, p, matched) =~= input.subrange(
                p,
                t,
            ) + seq![pad] + input.skip(t));
        }
    } else {
        assert(t <= input.len());
        lemma_padder_from_single(
            names,
            insert_before,
            pad,
            input,
            p + 1,
            completes(names, input, p + 1),
            t,
        );
        assert(!pad_at(names, insert_before, input, p));
        assert(padder_from(names, insert_before, pad, input, p, matched) =~= input.subrange(p, t)
            + seq![pad] + input.skip(t));
    }
}

/// Padder exactness: padding happens if and only if the stream, from
/// position 0, exactly equals one configured reserved name, evaluated at
/// stream end or at the configured boundary character.
///
/// If no point of the stream qualifies, the output is the input,
/// unchanged. If exactly one point `t` qualifies, the output is the input
/// with one pad character inserted right there — after the matched name
/// and before the boundary character or the stream end.
pub proof fn lemma_padder_exactness(
    names: Seq<Seq<char>>,
    insert_before: Option<char>,
    pad: char,
    input: Seq<char>,
)
    ensures
        (forall|q: int| !pad_at(names, insert_before, input, q)) ==> padder_output(
            names,
            insert_before,
            pad,
            input,
        ) == input,
        forall|t: int|
            (#[trigger] pad_at(names, insert_before, input, t) && (forall|q: int|
                q != t ==> !pad_at(names, insert_before, input, q))) ==> padder_output(
                names,
                insert_before,
                pad,
                input,
            ) == input.take(t) + seq![pad] + input.skip(t),
        (exists|t: int| #[trigger] pad_at(names, insert_before, input, t)) ==> padder_output(
            names,
            insert_before,
            pad,
            input,
        ).len() > input.len(),
{
    if forall|q: int| !pad_at(names, insert_before, input, q) {
        lemma_padder_from_id(names, insert_before, pad, input, 0, false);
        assert(input.skip(0) =~= input);
    }
    assert forall|t: int|
        (pad_at(names, insert_before, input, t) && (forall|q: int|
            q != t ==> !pad_at(names, insert_before, input, q))) implies padder_output(
        names,
        insert_before,
        pad,
        input,
    ) == input.take(t) + seq![pad] + input.skip(t) by {
        lemma_padder_from_single(names, insert_before, pad, input, 0, false, t);
        assert(input.subrange(0, t) =~= input.take(t));
    }
    if exists|t: int| #[trigger] pad_at(names, insert_before, input, t) {
        let t = choose|t: int| #[trigger] pad_at(names, insert_before, input, t);
        lemma_pad_count_pos(names, insert_before, input, 0, t);
        lemma_padder_from_len(names, insert_before, pad, input, 0, false);
    }
}

} // verus!

