use vstd::prelude::*;

verus! {

/// The characters of `s` with every occurrence of `c` taken out.
pub open spec fn without_char(s: Seq<char>, c: char) -> Seq<char>
    decreases s.len(),
{
    if s.len() == 0 {
        s
    } else if s[0] == c {
        without_char(s.subrange(1, s.len() as int), c)
    } else {
        seq![s[0]] + without_char(s.subrange(1, s.len() as int), c)
    }
}

/// The text of the archive suffix `.zip`.
pub open spec fn zip_suffix() -> Seq<char> {
    seq!['.', 'z', 'i', 'p']
}

/// `s` with every occurrence of `.zip` taken out, read from left to right.
pub open spec fn without_zip(s: Seq<char>) -> Seq<char>
    decreases s.len(),
{
    if s.len() == 0 {
        s
    } else if s.len() >= 4 && s.subrange(0, 4) == zip_suffix() {
        without_zip(s.subrange(4, s.len() as int))
    } else {
        seq![s[0]] + without_zip(s.subrange(1, s.len() as int))
    }
}

/// Whether `s` begins with a slash.
pub open spec fn starts_with_slash(s: Seq<char>) -> bool {
    s.len() > 0 && s[0] == '/'
}

/// Tests whether the text begins with `/`.
pub fn has_leading_slash(s: &str) -> (r: bool)
    ensures
        r == starts_with_slash(s@),
{
    if s.unicode_len() == 0 {
        false
    } else {
        s.get_char(0) == '/'
    }
}

/// Copies `s` leaving out every `c`.
pub fn remove_char(s: &str, c: char) -> (r: String)
    ensures
        r@ == without_char(s@, c),
{
    let n = s.unicode_len();
    let mut out = String::new();
    let mut i: usize = 0;
    assert(s@.subrange(0, n as int) == s@);
    assert(out@ + without_char(s@, c) == without_char(s@, c));
    while i < n
        invariant
            n == s@.len(),
            i <= n,
            out@ + without_char(s@.subrange(i as int, n as int), c) == without_char(s@, c),
        decreases n - i,
    {
        let ch = s.get_char(i);
        let ghost rest = s@.subrange(i as int, n as int);
        assert(rest.subrange(1, rest.len() as int) == s@.subrange(i + 1, n as int));
        if ch != c {
            out.append(s.substring_char(i, i + 1));
        }
        i = i + 1;
    }
    assert(s@.subrange(n as int, n as int) == Seq::<char>::empty());
    out
}

/// Copies `s` leaving out every `.zip`, scanning from the left.
pub fn remove_zip(s: &str) -> (r: String)
    ensures
        r@ == without_zip(s@),
{
    let n = s.unicode_len();
    let mut out = String::new();
    let mut i: usize = 0;
    assert(s@.subrange(0, n as int) == s@);
    assert(out@ + without_zip(s@) == without_zip(s@));
    while i < n
        invariant
            n == s@.len(),
            i <= n,
            out@ + without_zip(s@.subrange(i as int, n as int)) == without_zip(s@),
        decreases n - i,
    {
        let ghost rest = s@.subrange(i as int, n as int);
        let at_zip = n - i >= 4 && s.get_char(i) == '.' && s.get_char(i + 1) == 'z'
            && s.get_char(i + 2) == 'i' && s.get_char(i + 3) == 'p';
        if at_zip {
            assert(rest.subrange(0, 4) == zip_suffix());
            assert(rest.subrange(4, rest.len() as int) == s@.subrange(i + 4, n as int));
            i = i + 4;
        } else {
            assert(rest.len() >= 4 ==> rest.subrange(0, 4) != zip_suffix()) by {
                if rest.len() >= 4 && rest.subrange(0, 4) == zip_suffix() {
                    assert(rest.subrange(0, 4)[0] == '.');
                    assert(rest.subrange(0, 4)[1] == 'z');
                    assert(rest.subrange(0, 4)[2] == 'i');
                    assert(rest.subrange(0, 4)[3] == 'p');
                }
            }
            assert(rest.subrange(1, rest.len() as int) == s@.subrange(i + 1, n as int));
            out.append(s.substring_char(i, i + 1));
            i = i + 1;
        }
    }
    assert(s@.subrange(n as int, n as int) == Seq::<char>::empty());
    out
}

/// Tests whether two texts hold the same characters.
pub fn same_text(a: &str, b: &str) -> (r: bool)
    ensures
        r == (a@ == b@),
{
    let n = a.unicode_len();
    if n != b.unicode_len() {
        return false;
    }
    let mut i: usize = 0;
    while i < n
        invariant
            n == a@.len(),
            n == b@.len(),
            i <= n,
            forall|j: int| 0 <= j < i ==> a@[j] == b@[j],
        decreases n - i,
    {
        if a.get_char(i) != b.get_char(i) {
            return false;
        }
        i = i + 1;
    }
    assert(a@ =~= b@);
    true
}

}
