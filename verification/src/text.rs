//! Characters and character runs: the vocabulary the command grammar is written in.

use vstd::prelude::*;

verus! {

/// The marker that opens a command line. A line may carry it any number of times.
pub const COMMAND_PREFIX: char = ';';

/// Whether `c` separates words: the code points with the Unicode property `White_Space`.
pub open spec fn is_space(c: char) -> bool {
    let n = c as u32;
    ||| 0x09 <= n <= 0x0D
    ||| n == 0x20
    ||| n == 0x85
    ||| n == 0xA0
    ||| n == 0x1680
    ||| 0x2000 <= n <= 0x200A
    ||| n == 0x2028
    ||| n == 0x2029
    ||| n == 0x202F
    ||| n == 0x205F
    ||| n == 0x3000
}

/// The three kinds of character the grammar tells apart.
#[derive(Clone, Copy, Debug, PartialEq, Eq)]
pub enum Class {
    /// The command prefix.
    Marker,
    /// A word separator.
    Space,
    /// Anything that is not a word separator.
    Word,
}

impl Class {
    /// Whether `c` belongs to this class.
    pub open spec fn holds(self, c: char) -> bool {
        match self {
            Class::Marker => c == COMMAND_PREFIX,
            Class::Space => is_space(c),
            Class::Word => !is_space(c),
        }
    }

    /// Decides `holds`.
    pub fn test(self, c: char) -> (b: bool)
        ensures
            b == self.holds(c),
    {
        match self {
            Class::Marker => c == COMMAND_PREFIX,
            Class::Space => space(c),
            Class::Word => !space(c),
        }
    }
}

/// Decides `is_space`.
pub fn space(c: char) -> (b: bool)
    ensures
        b == is_space(c),
{
    let n: u32 = c as u32;
    (0x09 <= n && n <= 0x0D) || n == 0x20 || n == 0x85 || n == 0xA0 || n == 0x1680 || (0x2000 <= n
        && n <= 0x200A) || n == 0x2028 || n == 0x2029 || n == 0x202F || n == 0x205F || n == 0x3000
}

/// How many characters at the front of `s` belong to `class`, counted up to the
/// first one that does not.
pub open spec fn leading(s: Seq<char>, class: Class) -> nat
    decreases s.len(),
{
    if s.len() > 0 && class.holds(s[0]) {
        1 + leading(s.skip(1), class)
    } else {
        0
    }
}

/// `leading` is the length of the longest front of `s` that lies in `class`.
pub proof fn lemma_leading(s: Seq<char>, class: Class)
    ensures
        leading(s, class) <= s.len(),
        forall|i: int| 0 <= i < leading(s, class) ==> class.holds(#[trigger] s[i]),
        leading(s, class) < s.len() ==> !class.holds(s[leading(s, class) as int]),
    decreases s.len(),
{
    if s.len() > 0 && class.holds(s[0]) {
        let t = s.skip(1);
        lemma_leading(t, class);
        assert forall|i: int| 0 <= i < leading(s, class) implies class.holds(#[trigger] s[i]) by {
            if i > 0 {
                assert(s[i] == t[i - 1]);
            }
        }
        if leading(s, class) < s.len() {
            assert(s[leading(s, class) as int] == t[leading(t, class) as int]);
        }
    }
}

/// A count `n` with the two properties of `lemma_leading` is `leading`.
pub proof fn lemma_leading_unique(s: Seq<char>, class: Class, n: int)
    requires
        0 <= n <= s.len(),
        forall|i: int| 0 <= i < n ==> class.holds(#[trigger] s[i]),
        n < s.len() ==> !class.holds(s[n]),
    ensures
        leading(s, class) == n,
{
    lemma_leading(s, class);
    let m = leading(s, class) as int;
    if m < n {
        assert(class.holds(s[m]));
    } else if n < m {
        assert(class.holds(s[n]));
    }
}

/// The characters of `s`, in order.
pub fn chars_of(s: &str) -> (v: Vec<char>)
    ensures
        v@ == s@,
{
    let mut v: Vec<char> = Vec::new();
    for c in it: s.chars()
        invariant
            it.seq() == s@,
            v@ == s@.take(it.index() as int),
    {
        v.push(c);
    }
    v
}

/// Whether two texts hold the same characters.
pub fn same(a: &str, b: &str) -> (eq: bool)
    ensures
        eq == (a@ == b@),
{
    let x = chars_of(a);
    let y = chars_of(b);
    if x.len() != y.len() {
        return false;
    }
    let mut i: usize = 0;
    while i < x.len()
        invariant
            x@ == a@,
            y@ == b@,
            x.len() == y.len(),
            i <= x.len(),
            forall|j: int| 0 <= j < i ==> x@[j] == y@[j],
        decreases x.len() - i,
    {
        if x[i] != y[i] {
            return false;
        }
        i += 1;
    }
    assert(x@ =~= y@);
    true
}

/// The index of the first character at or after `from` that is not in `class`,
/// or the length of `chars` when there is none.
pub fn scan(chars: &Vec<char>, from: usize, class: Class) -> (end: usize)
    requires
        from <= chars.len(),
    ensures
        from <= end <= chars.len(),
        end == from + leading(chars@.skip(from as int), class),
{
    let mut end: usize = from;
    while end < chars.len() && class.test(chars[end])
        invariant
            from <= end <= chars.len(),
            forall|i: int| from <= i < end ==> class.holds(#[trigger] chars@[i]),
        decreases chars.len() - end,
    {
        end += 1;
    }
    proof {
        let tail = chars@.skip(from as int);
        assert forall|i: int| 0 <= i < end - from implies class.holds(#[trigger] tail[i]) by {
            assert(tail[i] == chars@[from + i]);
        }
        lemma_leading_unique(tail, class, end - from);
    }
    end
}

} // verus!
