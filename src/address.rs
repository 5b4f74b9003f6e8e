//! Addresses: normalization and the ordered, duplicate-free run plan.
use vstd::prelude::*;

verus! {

/// The characters that carry Unicode's `White_Space` property, which is what
/// `char::is_whitespace` and hence `str::trim` go by.
pub open spec fn is_white_space(c: char) -> bool {
    let u = c as u32;
    (0x9 <= u && u <= 0xd) || u == 0x20 || u == 0x85 || u == 0xa0 || u == 0x1680 || (0x2000 <= u
        && u <= 0x200a) || u == 0x2028 || u == 0x2029 || u == 0x202f || u == 0x205f || u
        == 0x3000
}

/// `s` without its leading white space.
pub open spec fn trim_start(s: Seq<char>) -> Seq<char>
    decreases s.len(),
{
    if s.len() > 0 && is_white_space(s[0]) {
        trim_start(s.drop_first())
    } else {
        s
    }
}

/// `s` without its trailing white space.
pub open spec fn trim_end(s: Seq<char>) -> Seq<char>
    decreases s.len(),
{
    if s.len() > 0 && is_white_space(s.last()) {
        trim_end(s.drop_last())
    } else {
        s
    }
}

/// `s` without white space at either end.
pub open spec fn trimmed(s: Seq<char>) -> Seq<char> {
    trim_end(trim_start(s))
}

/// What `str::to_lowercase` makes of a string: Unicode's full lower-case
/// mapping, applied character by character.
pub uninterp spec fn lower_of(s: Seq<char>) -> Seq<char>;

/// Relies on `str::to_lowercase`: the result is a function of the characters
/// alone, and the empty string stays empty.
#[verifier::external_body]
fn lowercase(s: &str) -> (r: String)
    ensures
        r@ == lower_of(s@),
        s@.len() == 0 ==> r@.len() == 0,
{
    s.to_lowercase()
}

/// Relies on `str::trim`: the slice without leading and trailing characters
/// that have the `White_Space` property.
#[verifier::external_body]
fn trim_white_space(s: &str) -> (r: &str)
    ensures
        r@ == trimmed(s@),
{
    s.trim()
}

/// The key under which an address is looked up: lower-cased, then trimmed.
pub open spec fn normal_form(raw: Seq<char>) -> Seq<char> {
    trimmed(lower_of(raw))
}

/// The views of a sequence of strings.
pub open spec fn views(v: Seq<String>) -> Seq<Seq<char>> {
    v.map_values(|s: String| s@)
}

/// The run plan for a list of input lines: the normal form of each line, in
/// input order, leaving out blank lines and addresses already planned.
pub open spec fn planned(lines: Seq<Seq<char>>) -> Seq<Seq<char>>
    decreases lines.len(),
{
    if lines.len() == 0 {
        Seq::empty()
    } else {
        let prev = planned(lines.drop_last());
        let a = normal_form(lines.last());
        if a.len() == 0 || prev.contains(a) {
            prev
        } else {
            prev.push(a)
        }
    }
}

/// Normalizes one address: lower-cased, with surrounding white space removed.
pub fn normalize_address(raw: &str) -> (r: String)
    ensures
        r@ == normal_form(raw@),
{
    let lower = lowercase(raw);
    let t = trim_white_space(lower.as_str());
    t.to_owned()
}

/// Whether `a` is among `v`.
fn contains_address(v: &Vec<String>, a: &String) -> (r: bool)
    ensures
        r == views(v@).contains(a@),
{
    let mut i: usize = 0;
    while i < v.len()
        invariant
            i <= v.len(),
            forall|k: int| 0 <= k < i ==> v@[k]@ != a@,
        decreases v.len() - i,
    {
        if v[i] == *a {
            assert(views(v@)[i as int] == a@);
            return true;
        }
        i = i + 1;
    }
    assert forall|k: int| 0 <= k < views(v@).len() implies views(v@)[k] != a@ by {
        assert(views(v@)[k] == v@[k]@);
    }
    false
}

/// Plans a run: normalizes each input line and keeps, in input order, the
/// first occurrence of each non-blank address.
pub fn plan_addresses(lines: &Vec<String>) -> (r: Vec<String>)
    ensures
        views(r@) == planned(views(lines@)),
{
    let mut out: Vec<String> = Vec::new();
    let mut i: usize = 0;
    while i < lines.len()
        invariant
            i <= lines.len(),
            views(out@) == planned(views(lines@).take(i as int)),
        decreases lines.len() - i,
    {
        let a = normalize_address(lines[i].as_str());
        let ghost pre = views(lines@).take(i as int);
        let ghost next = views(lines@).take(i + 1);
        assert(next.drop_last() =~= pre);
        assert(next.last() == lines@[i as int]@);
        if !a.as_str().is_empty() && !contains_address(&out, &a) {
            let ghost before = out@;
            out.push(a);
            assert(views(out@) =~= views(before).push(a@));
        }
        i = i + 1;
    }
    assert(views(lines@).take(lines.len() as int) =~= views(lines@));
    out
}

/// Whether some input line normalizes to `a`.
pub open spec fn is_input_address(lines: Seq<Seq<char>>, a: Seq<char>) -> bool {
    exists|k: int| 0 <= k < lines.len() && normal_form(lines[k]) == a
}

/// The plan holds one entry per distinct non-blank normalized input line:
/// no address twice, and an address is planned exactly when it is non-blank
/// and some input line normalizes to it.
pub proof fn lemma_plan_is_distinct_inputs(lines: Seq<Seq<char>>)
    ensures
        planned(lines).no_duplicates(),
        forall|a: Seq<char>|
            #![trigger planned(lines).contains(a)]
            planned(lines).contains(a) <==> (a.len() > 0 && is_input_address(lines, a)),
    decreases lines.len(),
{
    if lines.len() > 0 {
        let rest = lines.drop_last();
        lemma_plan_is_distinct_inputs(rest);
        let prev = planned(rest);
        let a = normal_form(lines.last());
        assert forall|b: Seq<char>| is_input_address(lines, b) <==> (is_input_address(rest, b) || b
            == a) by {
            if is_input_address(lines, b) {
                let k = choose|k: int| 0 <= k < lines.len() && normal_form(lines[k]) == b;
                if k < rest.len() {
                    assert(rest[k] == lines[k]);
                }
            }
            if is_input_address(rest, b) {
                let k = choose|k: int| 0 <= k < rest.len() && normal_form(rest[k]) == b;
                assert(lines[k] == rest[k]);
            }
            if b == a {
                assert(normal_form(lines[lines.len() - 1]) == b);
            }
        }
        if !(a.len() == 0 || prev.contains(a)) {
            let p = prev.push(a);
            assert forall|i: int, j: int| 0 <= i < p.len() && 0 <= j < p.len() && i != j implies p[i]
                != p[j] by {
                if i < prev.len() && j < prev.len() {
                    assert(p[i] == prev[i] && p[j] == prev[j]);
                } else if i < prev.len() {
                    assert(p[i] == prev[i]);
                } else if j < prev.len() {
                    assert(p[j] == prev[j]);
                }
            }
            assert forall|b: Seq<char>| p.contains(b) <==> (prev.contains(b) || b == a) by {
                if p.contains(b) {
                    let i = choose|i: int| 0 <= i < p.len() && p[i] == b;
                    if i < prev.len() {
                        assert(prev[i] == b);
                    }
                }
                if prev.contains(b) {
                    let i = choose|i: int| 0 <= i < prev.len() && prev[i] == b;
                    assert(p[i] == b);
                }
                if b == a {
                    assert(p[prev.len() as int] == b);
                }
            }
        }
    }
}

/// Input order is kept: the plan of the first `k` lines is a prefix of the
/// plan of all of them, so an address first met earlier is planned earlier.
pub proof fn lemma_plan_keeps_order(lines: Seq<Seq<char>>, k: int)
    requires
        0 <= k <= lines.len(),
    ensures
        planned(lines.take(k)).len() <= planned(lines).len(),
        planned(lines.take(k)) == planned(lines).take(planned(lines.take(k)).len() as int),
    decreases lines.len(),
{
    if k == lines.len() {
        assert(lines.take(k) =~= lines);
        assert(planned(lines) =~= planned(lines).take(planned(lines).len() as int));
    } else {
        let rest = lines.drop_last();
        lemma_plan_keeps_order(rest, k);
        assert(rest.take(k) =~= lines.take(k));
        let prev = planned(rest);
        let n = planned(lines.take(k)).len() as int;
        assert(prev.take(n) =~= planned(lines).take(n));
    }
}

} // verus!
