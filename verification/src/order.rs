//! The order of texts, by their characters, and of paths, by their components; the first
//! difference decides.
use vstd::prelude::*;

use crate::text::bare;
use crate::text::chars_of;
use crate::text::same;
use crate::text::split_at_char;

verus! {

/// Whether a text comes before another.
pub open spec fn text_less(a: Seq<char>, b: Seq<char>) -> bool
    decreases a.len(),
{
    if b.len() == 0 {
        false
    } else if a.len() == 0 {
        true
    } else if a[0] != b[0] {
        a[0] < b[0]
    } else {
        text_less(a.skip(1), b.skip(1))
    }
}

/// Whether a text comes before another.
pub fn less(a: &str, b: &str) -> (r: bool)
    ensures
        r == text_less(a@, b@),
{
    let x: Vec<char> = chars_of(a);
    let y: Vec<char> = chars_of(b);
    let mut i: usize = 0;
    assert(x@.skip(0) =~= x@);
    assert(y@.skip(0) =~= y@);
    loop
        invariant
            i <= x.len(),
            i <= y.len(),
            text_less(x@, y@) == text_less(x@.skip(i as int), y@.skip(i as int)),
            x@ == a@,
            y@ == b@,
        decreases x.len() - i,
    {
        if i == y.len() {
            return false;
        }
        if i == x.len() {
            return true;
        }
        assert(x@.skip(i as int)[0] == x@[i as int]);
        assert(y@.skip(i as int)[0] == y@[i as int]);
        if x[i] != y[i] {
            return x[i] < y[i];
        }
        assert(x@.skip(i as int).skip(1) =~= x@.skip(i + 1));
        assert(y@.skip(i as int).skip(1) =~= y@.skip(i + 1));
        i += 1;
    }
}

/// The order of texts is total: of two different texts, exactly one comes first.
pub proof fn law_text_order_is_total(a: Seq<char>, b: Seq<char>)
    ensures
        a == b ==> !text_less(a, b),
        a != b ==> text_less(a, b) != text_less(b, a),
    decreases a.len(),
{
    if a.len() == 0 {
        if b.len() == 0 {
            assert(a =~= b);
        }
    } else if b.len() > 0 && a[0] == b[0] {
        law_text_order_is_total(a.skip(1), b.skip(1));
        if a != b {
            if a.skip(1) == b.skip(1) {
                assert(a =~= seq![a[0]] + a.skip(1));
                assert(b =~= seq![b[0]] + b.skip(1));
                assert(false);
            }
        }
    }
}

/// The order of texts is transitive.
pub proof fn law_text_order_is_transitive(a: Seq<char>, b: Seq<char>, c: Seq<char>)
    requires
        text_less(a, b),
        text_less(b, c),
    ensures
        text_less(a, c),
    decreases a.len(),
{
    if a.len() > 0 && a[0] == b[0] && b[0] == c[0] {
        law_text_order_is_transitive(a.skip(1), b.skip(1), c.skip(1));
    }
}

/// The rank of a component of a path: what stands for the root comes first, then the dot, then
/// the two dots, then the names.
pub open spec fn part_rank(part: Seq<char>) -> int {
    if part.len() == 0 {
        0
    } else if part == seq!['.'] {
        1
    } else if part == seq!['.', '.'] {
        2
    } else {
        3
    }
}

/// Whether a component of a path comes before another.
pub open spec fn part_less(a: Seq<char>, b: Seq<char>) -> bool {
    part_rank(a) < part_rank(b) || (part_rank(a) == part_rank(b) && text_less(a, b))
}

/// Whether components come before others: the first difference decides.
pub open spec fn parts_less(a: Seq<Seq<char>>, b: Seq<Seq<char>>) -> bool
    decreases a.len(),
{
    if b.len() == 0 {
        false
    } else if a.len() == 0 {
        true
    } else if a[0] != b[0] {
        part_less(a[0], b[0])
    } else {
        parts_less(a.skip(1), b.skip(1))
    }
}

/// Whether a path in its plainest spelling comes before another.
pub open spec fn path_less(a: Seq<char>, b: Seq<char>) -> bool {
    parts_less(crate::text::pieces(a, '/'), crate::text::pieces(b, '/'))
}

fn rank_of(part: &str) -> (r: u8)
    ensures
        r == part_rank(part@),
{
    let chars: Vec<char> = chars_of(part);
    let dot: bool = chars.len() == 1 && chars[0] == '.';
    let dots: bool = chars.len() == 2 && chars[0] == '.' && chars[1] == '.';
    assert(dot == (part@ =~= seq!['.']));
    assert(dots == (part@ =~= seq!['.', '.']));
    if chars.len() == 0 {
        0
    } else if dot {
        1
    } else if dots {
        2
    } else {
        3
    }
}

fn part_before(a: &str, b: &str) -> (r: bool)
    ensures
        r == part_less(a@, b@),
{
    let x: u8 = rank_of(a);
    let y: u8 = rank_of(b);
    x < y || (x == y && less(a, b))
}

/// Whether a path comes before another, however they are spelled.
pub fn path_before(a: &str, b: &str) -> (r: bool)
    ensures
        r == path_less(crate::text::bare_path(a@), crate::text::bare_path(b@)),
{
    let plain: String = bare(a);
    let other: String = bare(b);
    let x: Vec<String> = split_at_char(plain.as_str(), '/');
    let y: Vec<String> = split_at_char(other.as_str(), '/');
    let ghost xs = crate::text::texts(x@);
    let ghost ys = crate::text::texts(y@);
    let mut i: usize = 0;
    assert(xs.skip(0) =~= xs);
    assert(ys.skip(0) =~= ys);
    loop
        invariant
            i <= x.len(),
            i <= y.len(),
            xs == crate::text::texts(x@),
            ys == crate::text::texts(y@),
            xs == crate::text::pieces(crate::text::bare_path(a@), '/'),
            ys == crate::text::pieces(crate::text::bare_path(b@), '/'),
            parts_less(xs, ys) == parts_less(xs.skip(i as int), ys.skip(i as int)),
        decreases x.len() - i,
    {
        if i == y.len() {
            return false;
        }
        if i == x.len() {
            return true;
        }
        assert(xs.skip(i as int)[0] == xs[i as int]);
        assert(ys.skip(i as int)[0] == ys[i as int]);
        if !same(x[i].as_str(), y[i].as_str()) {
            return part_before(x[i].as_str(), y[i].as_str());
        }
        assert(xs.skip(i as int).skip(1) =~= xs.skip(i + 1));
        assert(ys.skip(i as int).skip(1) =~= ys.skip(i + 1));
        i += 1;
    }
}

proof fn lemma_part_order_is_total(a: Seq<char>, b: Seq<char>)
    ensures
        a == b ==> !part_less(a, b),
        a != b ==> part_less(a, b) != part_less(b, a),
{
    law_text_order_is_total(a, b);
}

proof fn lemma_parts_order_is_total(a: Seq<Seq<char>>, b: Seq<Seq<char>>)
    ensures
        a == b ==> !parts_less(a, b),
        a != b ==> parts_less(a, b) != parts_less(b, a),
    decreases a.len(),
{
    if a.len() == 0 {
        if b.len() == 0 {
            assert(a =~= b);
        }
    } else if b.len() > 0 {
        lemma_part_order_is_total(a[0], b[0]);
        if a[0] == b[0] {
            lemma_parts_order_is_total(a.skip(1), b.skip(1));
            if a != b && a.skip(1) == b.skip(1) {
                assert(a =~= seq![a[0]] + a.skip(1));
                assert(b =~= seq![b[0]] + b.skip(1));
                assert(false);
            }
        }
    }
}

proof fn lemma_parts_order_is_transitive(
    a: Seq<Seq<char>>,
    b: Seq<Seq<char>>,
    c: Seq<Seq<char>>,
)
    requires
        parts_less(a, b),
        parts_less(b, c),
    ensures
        parts_less(a, c),
    decreases a.len(),
{
    if a.len() > 0 {
        if a[0] == b[0] && b[0] == c[0] {
            lemma_parts_order_is_transitive(a.skip(1), b.skip(1), c.skip(1));
        } else if a[0] != b[0] && b[0] != c[0] {
            if text_less(a[0], b[0]) && text_less(b[0], c[0]) {
                law_text_order_is_transitive(a[0], b[0], c[0]);
            }
            lemma_part_order_is_total(a[0], c[0]);
            lemma_part_order_is_total(a[0], b[0]);
        }
    }
}

/// The order of paths is total: of two different paths, exactly one comes first.
pub proof fn law_path_order_is_total(a: Seq<char>, b: Seq<char>)
    ensures
        a == b ==> !path_less(a, b),
        a != b ==> path_less(a, b) != path_less(b, a),
{
    let x = crate::text::pieces(a, '/');
    let y = crate::text::pieces(b, '/');
    lemma_parts_order_is_total(x, y);
    if x == y {
        crate::text::lemma_pieces_tell_texts_apart(a, b, '/');
    }
}

/// The order of paths is transitive.
pub proof fn law_path_order_is_transitive(a: Seq<char>, b: Seq<char>, c: Seq<char>)
    requires
        path_less(a, b),
        path_less(b, c),
    ensures
        path_less(a, c),
{
    lemma_parts_order_is_transitive(
        crate::text::pieces(a, '/'),
        crate::text::pieces(b, '/'),
        crate::text::pieces(c, '/'),
    );
}

} // verus!
