//! Characters and strings: the few operations the rest of the library needs,
//! stated over the characters of a string.
use vstd::prelude::*;
use vstd::string::*;

verus! {

/// `String::push` appends one character and leaves the rest as it was.
pub assume_specification[ String::push ](s: &mut String, c: char)
    ensures
        final(s)@ == old(s)@.push(c),
;

/// A number below sixteen as a lower-case hexadecimal digit.
pub open spec fn hex_digit(n: int) -> char {
    if n < 10 { (n + 48) as char } else { (n + 87) as char }
}

/// The Unicode `White_Space` property.
pub open spec fn white_space(c: char) -> bool {
    let n = c as int;
    ||| 0x09 <= n <= 0x0d
    ||| n == 0x20
    ||| n == 0x85
    ||| n == 0xa0
    ||| n == 0x1680
    ||| 0x2000 <= n <= 0x200a
    ||| n == 0x2028
    ||| n == 0x2029
    ||| n == 0x202f
    ||| n == 0x205f
    ||| n == 0x3000
}

/// Whether `c` has the Unicode `White_Space` property.
pub fn is_white_space(c: char) -> (r: bool)
    ensures
        r == white_space(c),
{
    let n: u32 = c as u32;
    (0x09 <= n && n <= 0x0d) || n == 0x20 || n == 0x85 || n == 0xa0 || n == 0x1680 || (0x2000 <= n
        && n <= 0x200a) || n == 0x2028 || n == 0x2029 || n == 0x202f || n == 0x205f || n == 0x3000
}

/// `s` without its leading white space.
pub open spec fn trimmed_start(s: Seq<char>) -> Seq<char>
    decreases s.len(),
{
    if s.len() > 0 && white_space(s[0]) {
        trimmed_start(s.drop_first())
    } else {
        s
    }
}

/// `s` without its trailing white space.
pub open spec fn trimmed_end(s: Seq<char>) -> Seq<char>
    decreases s.len(),
{
    if s.len() > 0 && white_space(s.last()) {
        trimmed_end(s.drop_last())
    } else {
        s
    }
}

/// `s` without white space at either end.
pub open spec fn trimmed(s: Seq<char>) -> Seq<char> {
    trimmed_end(trimmed_start(s))
}

/// The characters of a string.
pub fn chars_of(s: &str) -> (r: Vec<char>)
    ensures
        r@ == s@,
{
    let mut out: Vec<char> = Vec::new();
    for c in it: s.chars()
        invariant
            it.seq() == s@,
            out@ == s@.take(it.index() as int),
    {
        out.push(c);
        proof {
            assert(s@.take(it.index() as int).push(c) =~= s@.take(it.index() as int + 1));
        }
    }
    proof {
        assert(s@.take(s@.len() as int) =~= s@);
    }
    out
}

/// The string of the characters `v[from..to]`.
pub fn string_of(v: &Vec<char>, from: usize, to: usize) -> (r: String)
    requires
        from <= to <= v@.len(),
    ensures
        r@ == v@.subrange(from as int, to as int),
{
    let mut out = String::new();
    let mut i: usize = from;
    while i < to
        invariant
            from <= i <= to <= v@.len(),
            out@ == v@.subrange(from as int, i as int),
        decreases to - i,
    {
        out.push(v[i]);
        proof {
            assert(v@.subrange(from as int, i as int).push(v@[i as int]) =~= v@.subrange(
                from as int,
                i as int + 1,
            ));
        }
        i = i + 1;
    }
    out
}

/// Whether two strings hold the same characters.
pub fn same_text(a: &str, b: &str) -> (r: bool)
    ensures
        r == (a@ == b@),
{
    let x: String = a.to_owned();
    let y: String = b.to_owned();
    x == y
}

/// Whether `s` begins with `prefix`.
pub fn has_prefix(s: &str, prefix: &str) -> (r: bool)
    ensures
        r == prefix@.is_prefix_of(s@),
{
    let a = chars_of(s);
    let b = chars_of(prefix);
    if b.len() > a.len() {
        return false;
    }
    let mut i: usize = 0;
    while i < b.len()
        invariant
            i <= b@.len() <= a@.len(),
            a@ == s@,
            b@ == prefix@,
            b@.take(i as int) == a@.take(i as int),
        decreases b.len() - i,
    {
        if a[i] != b[i] {
            proof {
                assert(prefix@[i as int] != s@[i as int]);
                assert(s@.subrange(0, prefix@.len() as int)[i as int] == s@[i as int]);
            }
            return false;
        }
        proof {
            assert(b@.take(i as int + 1) =~= b@.take(i as int).push(b@[i as int]));
            assert(a@.take(i as int + 1) =~= a@.take(i as int).push(a@[i as int]));
        }
        i = i + 1;
    }
    proof {
        assert(b@.take(b@.len() as int) =~= b@);
        assert(a@.take(b@.len() as int) =~= s@.subrange(0, prefix@.len() as int));
    }
    true
}

/// What follows `prefix` in `s`, if `s` begins with it.
pub fn after_prefix(s: &str, prefix: &str) -> (r: Option<String>)
    ensures
        r is Some <==> prefix@.is_prefix_of(s@),
        r matches Some(rest) ==> s@ == prefix@ + rest@,
{
    if !has_prefix(s, prefix) {
        return None;
    }
    let a = chars_of(s);
    let b = chars_of(prefix);
    let rest = string_of(&a, b.len(), a.len());
    proof {
        assert(s@ =~= prefix@ + rest@);
    }
    Some(rest)
}

/// Trimming from the front stops at the first character that is not white
/// space.
pub proof fn lemma_trimmed_start(s: Seq<char>, i: int)
    requires
        0 <= i <= s.len(),
        forall|k: int| 0 <= k < i ==> white_space(#[trigger] s[k]),
        i < s.len() ==> !white_space(s[i]),
    ensures
        trimmed_start(s) == s.skip(i),
    decreases i,
{
    if i == 0 {
        assert(s.skip(0) =~= s);
    } else {
        let t = s.drop_first();
        assert forall|k: int| 0 <= k < i - 1 implies white_space(#[trigger] t[k]) by {
            assert(t[k] == s[k + 1]);
        }
        lemma_trimmed_start(t, i - 1);
        assert(t.skip(i - 1) =~= s.skip(i));
    }
}

/// Trimming from the back stops at the last character that is not white
/// space.
pub proof fn lemma_trimmed_end(s: Seq<char>, n: int)
    requires
        0 <= n <= s.len(),
        forall|k: int| n <= k < s.len() ==> white_space(#[trigger] s[k]),
        n > 0 ==> !white_space(s[n - 1]),
    ensures
        trimmed_end(s) == s.take(n),
    decreases s.len() - n,
{
    if n == s.len() {
        assert(s.take(n) =~= s);
    } else {
        let t = s.drop_last();
        assert forall|k: int| n <= k < t.len() implies white_space(#[trigger] t[k]) by {
            assert(t[k] == s[k]);
        }
        lemma_trimmed_end(t, n);
        assert(t.take(n) =~= s.take(n));
        assert(white_space(s[s.len() - 1]));
    }
}

/// `s` without white space at either end.
pub fn trim(s: &str) -> (r: String)
    ensures
        r@ == trimmed(s@),
{
    let v = chars_of(s);
    let mut from: usize = 0;
    while from < v.len() && is_white_space(v[from])
        invariant
            from <= v@.len(),
            forall|k: int| 0 <= k < from ==> white_space(#[trigger] v@[k]),
        decreases v.len() - from,
    {
        from = from + 1;
    }
    let mut to: usize = v.len();
    while to > from && is_white_space(v[to - 1])
        invariant
            from <= to <= v@.len(),
            forall|k: int| to <= k < v@.len() ==> white_space(#[trigger] v@[k]),
        decreases to,
    {
        to = to - 1;
    }
    proof {
        lemma_trimmed_start(v@, from as int);
        let t = v@.skip(from as int);
        let n = to - from;
        assert forall|k: int| n <= k < t.len() implies white_space(#[trigger] t[k]) by {
            assert(t[k] == v@[k + from]);
        }
        assert(n > 0 ==> t[n - 1] == v@[to - 1]);
        lemma_trimmed_end(t, n as int);
        assert(t.take(n as int) =~= v@.subrange(from as int, to as int));
    }
    string_of(&v, from, to)
}

/// `base` with `name` below it: one slash between them, none before a name that
/// has nothing before it.
pub open spec fn joined(base: Seq<char>, name: Seq<char>) -> Seq<char> {
    if base.len() == 0 || base.last() == '/' {
        base + name
    } else {
        base.push('/') + name
    }
}

/// The path of `name` below `base`.
pub fn join(base: &str, name: &str) -> (r: String)
    ensures
        r@ == joined(base@, name@),
{
    let v = chars_of(base);
    let mut out: String = base.to_owned();
    if v.len() > 0 && v[v.len() - 1] != '/' {
        out.push('/');
    }
    out.append(name);
    out
}

/// The views of a list of strings.
pub open spec fn texts(v: Seq<String>) -> Seq<Seq<char>> {
    v.map_values(|s: String| s@)
}

/// A copy of a list of texts.
pub fn copy_texts(v: &Vec<String>) -> (r: Vec<String>)
    ensures
        texts(r@) == texts(v@),
{
    let mut out: Vec<String> = Vec::new();
    let mut i: usize = 0;
    while i < v.len()
        invariant
            i <= v.len(),
            texts(out@) == texts(v@).take(i as int),
        decreases v.len() - i,
    {
        let ghost before = out@;
        let s = v[i].clone();
        let ghost sv = s@;
        out.push(s);
        proof {
            assert(texts(out@) =~= texts(before).push(sv));
            assert(texts(v@).take(i + 1) =~= texts(v@).take(i as int).push(texts(v@)[i as int]));
        }
        i += 1;
    }
    proof {
        assert(texts(v@).take(v@.len() as int) =~= texts(v@));
    }
    out
}

/// A decimal digit.
pub open spec fn digit(n: int) -> char {
    (('0' as int) + n) as char
}

/// A number in decimal.
pub open spec fn decimal_text(n: nat) -> Seq<char>
    decreases n,
{
    if n < 10 {
        seq![digit(n as int)]
    } else {
        decimal_text(n / 10).push(digit((n % 10) as int))
    }
}

/// A number in decimal.
pub fn decimal(n: u64) -> (r: String)
    ensures
        r@ == decimal_text(n as nat),
    decreases n,
{
    let d: u64 = n % 10;
    let c: char = (48u8 + d as u8) as char;
    let mut out = if n < 10 { String::new() } else { decimal(n / 10) };
    let ghost before = out@;
    out.push(c);
    proof {
        assert(c == digit(d as int));
        if n < 10 {
            assert(before.push(c) =~= seq![digit(n as int)]);
        }
    }
    out
}

/// Trimming the front drops white space and nothing else, and stops at the first
/// character that is none.
proof fn lemma_trimmed_start_drops_white_space(s: Seq<char>) -> (i: int)
    ensures
        0 <= i <= s.len(),
        forall|k: int| 0 <= k < i ==> white_space(#[trigger] s[k]),
        i < s.len() ==> !white_space(s[i]),
        trimmed_start(s) == s.skip(i),
    decreases s.len(),
{
    if s.len() > 0 && white_space(s[0]) {
        let t = s.drop_first();
        let j = lemma_trimmed_start_drops_white_space(t);
        assert forall|k: int| 0 <= k < j + 1 implies white_space(#[trigger] s[k]) by {
            if k > 0 {
                assert(s[k] == t[k - 1]);
            }
        }
        assert(t.skip(j) =~= s.skip(j + 1));
        j + 1
    } else {
        assert(s.skip(0) =~= s);
        0
    }
}

/// Trimming the back drops white space and nothing else, and stops at the last
/// character that is none.
proof fn lemma_trimmed_end_drops_white_space(s: Seq<char>) -> (n: int)
    ensures
        0 <= n <= s.len(),
        forall|k: int| n <= k < s.len() ==> white_space(#[trigger] s[k]),
        n > 0 ==> !white_space(s[n - 1]),
        trimmed_end(s) == s.take(n),
    decreases s.len(),
{
    if s.len() > 0 && white_space(s.last()) {
        let t = s.drop_last();
        let n = lemma_trimmed_end_drops_white_space(t);
        assert forall|k: int| n <= k < s.len() implies white_space(#[trigger] s[k]) by {
            if k < t.len() {
                assert(s[k] == t[k]);
            }
        }
        assert(t.take(n) =~= s.take(n));
        n
    } else {
        assert(s.take(s.len() as int) =~= s);
        s.len() as int
    }
}

/// Law: trimming takes white space from both ends and nothing else: what is left
/// is the part between two stretches of white space, it neither begins nor ends
/// with white space, and a text that does neither is left as it is.
pub proof fn law_trim_takes_only_white_space(s: Seq<char>)
    ensures
        ({
            let t = trimmed(s);
            &&& exists|a: int, b: int|
                0 <= a <= b <= s.len() && t == #[trigger] s.subrange(a, b) && (forall|k: int|
                    0 <= k < a ==> white_space(#[trigger] s[k])) && (forall|k: int|
                    b <= k < s.len() ==> white_space(#[trigger] s[k]))
            &&& t.len() > 0 ==> !white_space(t[0]) && !white_space(t.last())
            &&& s.len() > 0 && !white_space(s[0]) && !white_space(s.last()) ==> t == s
        }),
{
    let a = lemma_trimmed_start_drops_white_space(s);
    let u = s.skip(a);
    let n = lemma_trimmed_end_drops_white_space(u);
    let b = a + n;
    assert(u.take(n) =~= s.subrange(a, b));
    assert forall|k: int| b <= k < s.len() implies white_space(#[trigger] s[k]) by {
        assert(s[k] == u[k - a]);
    }
    assert(trimmed(s) == s.subrange(a, b));
    if n > 0 {
        assert(u[0] == s[a]);
        assert(s.subrange(a, b).last() == u[n - 1]);
    }
    if s.len() > 0 && !white_space(s[0]) && !white_space(s.last()) {
        assert(a == 0);
        assert(u =~= s);
        assert(n == s.len()) by {
            if n < s.len() {
                assert(white_space(u[s.len() - 1]));
            }
        }
        assert(s.subrange(0, s.len() as int) =~= s);
    }
}

/// The number that decimal digits stand for.
pub open spec fn number_in(s: Seq<char>) -> int
    decreases s.len(),
{
    if s.len() == 0 {
        0
    } else {
        10 * number_in(s.drop_last()) + (s.last() as int - 48)
    }
}

/// Law: a number in decimal is made of digits, has no needless zero in front, and
/// reads back as the number.
pub proof fn law_decimal_reads_back(n: nat)
    ensures
        number_in(decimal_text(n)) == n,
        decimal_text(n).len() > 0,
        forall|i: int| 0 <= i < decimal_text(n).len() ==> '0' <= #[trigger] decimal_text(n)[i] <= '9',
        n > 0 ==> decimal_text(n)[0] != '0',
    decreases n,
{
    let d = n % 10;
    assert(digit(d as int) as int == 48 + d);
    if n < 10 {
        let s = seq![digit(n as int)];
        assert(s.drop_last() =~= Seq::<char>::empty());
        assert(number_in(s.drop_last()) == 0);
    } else {
        let front = decimal_text(n / 10);
        law_decimal_reads_back(n / 10);
        let s = front.push(digit(d as int));
        assert(s.drop_last() =~= front);
        assert forall|i: int| 0 <= i < s.len() implies '0' <= #[trigger] s[i] <= '9' by {
            if i < front.len() {
                assert(s[i] == front[i]);
            }
        }
        assert(s[0] == front[0]);
    }
}

/// Law: a joined path begins with the base and ends with the name, and between the
/// two lies one slash, the base's own where it ends with one; a name alone stays
/// as it is.
pub proof fn law_joined_paths_have_one_slash_between(base: Seq<char>, name: Seq<char>)
    ensures
        ({
            let p = joined(base, name);
            &&& base.len() == 0 ==> p == name
            &&& base.len() > 0 && base.last() == '/' ==> p == base + name
            &&& base.len() > 0 && base.last() != '/' ==> p == base + seq!['/'] + name
        }),
{
    assert(Seq::<char>::empty() + name =~= name);
    if base.len() == 0 {
        assert(base + name =~= name);
    } else {
        assert(base.push('/') + name =~= base + seq!['/'] + name);
    }
}

/// Law: a hexadecimal digit stands for its number: `0` to `9`, then `a` to `f`.
pub proof fn law_hex_digits_are_lower_case(n: int)
    requires
        0 <= n < 16,
    ensures
        n < 10 ==> '0' <= hex_digit(n) <= '9' && hex_digit(n) as int - '0' as int == n,
        n >= 10 ==> 'a' <= hex_digit(n) <= 'f' && hex_digit(n) as int - 'a' as int == n - 10,
{
}

/// Law: white space is what Unicode calls so: the tab and the line breaks, the blank
/// and the blanks of every width, and nothing that shows.
pub proof fn law_white_space_is_unicodes(c: char)
    ensures
        white_space(c) <==> {
            let n = c as int;
            n == 9 || n == 10 || n == 11 || n == 12 || n == 13 || n == 32 || n == 0x85 || n == 0xa0 || n
                == 0x1680 || 0x2000 <= n <= 0x200a || n == 0x2028 || n == 0x2029 || n == 0x202f || n
                == 0x205f || n == 0x3000
        },
        33 <= c as int <= 126 ==> !white_space(c),
{
}

} // verus!
