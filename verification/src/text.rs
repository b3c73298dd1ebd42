use vstd::prelude::*;
use vstd::std_specs::iter::IteratorSpec;

verus! {

broadcast use vstd::string::next_postcondition, vstd::string::axiom_spec_iter;

/// Relies on String::push: appends exactly the one character.
#[verifier::external_body]
pub(crate) fn push_char(s: &mut String, c: char)
    ensures
        final (s)@ == old(s)@.push(c),
{
    s.push(c);
}

/// The characters of a string, as a vector.
pub fn to_chars(s: &str) -> (v: Vec<char>)
    ensures
        v@ == s@,
{
    let mut v: Vec<char> = Vec::new();
    let mut it = s.chars();
    loop
        invariant_except_break
            v@ + it.remaining() == s@,
            it.decrease() is Some,
        ensures
            v@ == s@,
        decreases it.decrease().unwrap(),
    {
        let n = it.next();
        if n.is_none() {
            proof {
                assert(v@ =~= v@ + it.remaining());
            }
            break ;
        }
        v.push(n.unwrap());
    }
    v
}

/// Filtering a sequence grows element by element.
pub proof fn lemma_filter_push<A>(s: Seq<A>, pred: spec_fn(A) -> bool, x: A)
    ensures
        s.push(x).filter(pred) == if pred(x) {
            s.filter(pred).push(x)
        } else {
            s.filter(pred)
        },
{
    reveal_with_fuel(Seq::<_>::filter, 2);
    assert(s.push(x).drop_last() =~= s);
    assert(s.push(x).last() == x);
    if pred(x) {
        assert(s.push(x).filter(pred) =~= s.filter(pred).push(x));
    } else {
        assert(s.push(x).filter(pred) =~= s.filter(pred));
    }
}

/// The characters that std's char::is_whitespace accepts: the Unicode
/// white-space set.
pub open spec fn is_space_char(c: char) -> bool {
    ||| c == ' '
    ||| c == '\u{9}'
    ||| c == '\u{a}'
    ||| c == '\u{b}'
    ||| c == '\u{c}'
    ||| c == '\u{d}'
    ||| c == '\u{85}'
    ||| c == '\u{a0}'
    ||| c == '\u{1680}'
    ||| c == '\u{2000}'
    ||| c == '\u{2001}'
    ||| c == '\u{2002}'
    ||| c == '\u{2003}'
    ||| c == '\u{2004}'
    ||| c == '\u{2005}'
    ||| c == '\u{2006}'
    ||| c == '\u{2007}'
    ||| c == '\u{2008}'
    ||| c == '\u{2009}'
    ||| c == '\u{200a}'
    ||| c == '\u{2028}'
    ||| c == '\u{2029}'
    ||| c == '\u{202f}'
    ||| c == '\u{205f}'
    ||| c == '\u{3000}'
}

/// A string is blank when every character is white space; the empty string
/// is blank.
pub open spec fn sp_blank(s: Seq<char>) -> bool {
    forall|i: int| 0 <= i < s.len() ==> is_space_char(#[trigger] s[i])
}

pub(crate) fn is_space(c: char) -> (b: bool)
    ensures
        b == is_space_char(c),
{
    c == ' ' || c == '\u{9}' || c == '\u{a}' || c == '\u{b}' || c == '\u{c}' || c == '\u{d}' || c
        == '\u{85}' || c == '\u{a0}' || c == '\u{1680}' || c == '\u{2000}' || c == '\u{2001}' || c
        == '\u{2002}' || c == '\u{2003}' || c == '\u{2004}' || c == '\u{2005}' || c == '\u{2006}'
        || c == '\u{2007}' || c == '\u{2008}' || c == '\u{2009}' || c == '\u{200a}' || c
        == '\u{2028}' || c == '\u{2029}' || c == '\u{202f}' || c == '\u{205f}' || c == '\u{3000}'
}

/// Whether the string is empty or consists of white space alone.
pub fn is_blank(s: &str) -> (b: bool)
    ensures
        b == sp_blank(s@),
{
    let cs = to_chars(s);
    let mut i: usize = 0;
    while i < cs.len()
        invariant
            i <= cs.len(),
            cs@ == s@,
            forall|j: int| 0 <= j < i ==> is_space_char(#[trigger] s@[j]),
        decreases cs.len() - i,
    {
        if !is_space(cs[i]) {
            return false;
        }
        i = i + 1;
    }
    true
}

/// The characters the sanitation step keeps: the printable range from '!'
/// to '\u{ff}', and the space.
pub open spec fn sp_keep(c: char) -> bool {
    (33 <= c as u32 && c as u32 <= 255) || c == ' '
}

/// What sanitation leaves of a raw document.
pub open spec fn sp_sanitize(s: Seq<char>) -> Seq<char> {
    s.filter(|c: char| sp_keep(c))
}

/// Drop every character outside the accepted printable range, keeping the
/// space: the defensive step the reload path applies to a raw document.
pub fn sanitize(s: &str) -> (r: Vec<char>)
    ensures
        r@ == sp_sanitize(s@),
{
    let cs = to_chars(s);
    let mut r: Vec<char> = Vec::new();
    proof {
        assert(s@.take(0).filter(|c: char| sp_keep(c)) =~= Seq::<char>::empty());
    }
    let mut i: usize = 0;
    while i < cs.len()
        invariant
            i <= cs.len(),
            cs@ == s@,
            r@ == s@.take(i as int).filter(|c: char| sp_keep(c)),
        decreases cs.len() - i,
    {
        let c = cs[i];
        if (c as u32 >= 33 && c as u32 <= 255) || c == ' ' {
            r.push(c);
        }
        proof {
            assert(s@.take(i + 1) =~= s@.take(i as int).push(s@[i as int]));
            lemma_filter_push(s@.take(i as int), |c: char| sp_keep(c), s@[i as int]);
        }
        i = i + 1;
    }
    proof {
        assert(s@.take(cs@.len() as int) =~= s@);
    }
    r
}

} // verus!
