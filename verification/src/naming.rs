//! Default names: the table of a record type and the column of a field.

use vstd::prelude::*;

verus! {

/// What `char::is_uppercase` of std answers for `c`: whether the character
/// has the Unicode property `Uppercase`.
pub uninterp spec fn is_uppercase(c: char) -> bool;

/// What `char::to_lowercase` of std yields for `c`: the characters of its
/// Unicode lowercase mapping, in order.
pub uninterp spec fn lowercase(c: char) -> Seq<char>;

/// `char::is_uppercase` of std; its answer is a function of the character
/// alone and goes by the name `is_uppercase`.
pub assume_specification[ char::is_uppercase ](c: char) -> (r: bool)
    ensures
        r == is_uppercase(c),
;

/// Collects what `char::to_lowercase` of std yields; the characters are a
/// function of the argument alone and go by the name `lowercase`.
#[verifier::external_body]
fn to_lowercase(c: char) -> (r: Vec<char>)
    ensures
        r@ == lowercase(c),
{
    c.to_lowercase().collect()
}

/// What the character at position `i` of a type name contributes to the
/// snake-case form: an uppercase letter opens a new word, so it is written
/// in lowercase behind an underscore (no underscore at position 0); any
/// other character stands for itself.
pub open spec fn snake_at(name: Seq<char>, i: int) -> Seq<char> {
    if is_uppercase(name[i]) {
        if i > 0 {
            seq!['_'] + lowercase(name[i])
        } else {
            lowercase(name[i])
        }
    } else {
        seq![name[i]]
    }
}

/// The snake-case form of the first `n` characters of a type name.
pub open spec fn snake_prefix(name: Seq<char>, n: nat) -> Seq<char>
    decreases n,
{
    if n == 0 {
        Seq::empty()
    } else {
        snake_prefix(name, (n - 1) as nat) + snake_at(name, n - 1)
    }
}

/// The default table name of a type: its snake-case form, with an `s`
/// appended unless it ends in one already.
pub open spec fn table_name_from_type(name: Seq<char>) -> Seq<char> {
    let snake = snake_prefix(name, name.len());
    if snake.len() > 0 && snake.last() == 's' {
        snake
    } else {
        snake.push('s')
    }
}

/// The default table name of the type called `name`.
pub fn to_snake_plural(name: &str) -> (out: String)
    ensures
        out@ == table_name_from_type(name@),
{
    let mut out = String::new();
    let mut first = true;
    let mut ends_in_s = false;
    for ch in it: name.chars()
        invariant
            it.seq() == name@,
            first == (it.index() == 0),
            out@ == snake_prefix(name@, it.index() as nat),
            ends_in_s == (out@.len() > 0 && out@.last() == 's'),
    {
        if ch.is_uppercase() {
            if !first {
                out.push('_');
                ends_in_s = false;
            }
            let lower = to_lowercase(ch);
            let ghost before = out@;
            let mut k: usize = 0;
            while k < lower.len()
                invariant
                    k <= lower.len(),
                    out@ == before + lower@.take(k as int),
                    ends_in_s == (out@.len() > 0 && out@.last() == 's'),
                decreases lower.len() - k,
            {
                out.push(lower[k]);
                ends_in_s = lower[k] == 's';
                proof {
                    assert(lower@.take(k + 1) =~= lower@.take(k as int).push(lower@[k as int]));
                    assert(out@ =~= before + lower@.take(k + 1));
                }
                k += 1;
            }
            proof {
                assert(lower@.take(lower.len() as int) =~= lower@);
                assert(out@ =~= snake_prefix(name@, it.index() as nat) + snake_at(
                    name@,
                    it.index() as int,
                ));
            }
        } else {
            out.push(ch);
            ends_in_s = ch == 's';
            proof {
                assert(out@ =~= snake_prefix(name@, it.index() as nat) + snake_at(
                    name@,
                    it.index() as int,
                ));
            }
        }
        first = false;
    }
    if !ends_in_s {
        out.push('s');
    }
    out
}

} // verus!
