use vstd::prelude::*;

verus! {

/// An IPv4 address as its four octets, most significant first.
#[derive(Clone, Copy, Debug, PartialEq, Eq, Structural)]
pub struct Ipv4Address(pub u8, pub u8, pub u8, pub u8);

/// `c` is an ASCII decimal digit.
pub open spec fn is_digit(c: char) -> bool {
    48 <= (c as int) <= 57
}

/// Every character of `s` is an ASCII decimal digit.
pub open spec fn all_digits(s: Seq<char>) -> bool {
    forall|i: int| 0 <= i < s.len() ==> is_digit(#[trigger] s[i])
}

/// The value of the ASCII decimal digit `c`.
pub open spec fn digit_value(c: char) -> nat {
    ((c as int) - 48) as nat
}

/// The ASCII decimal digit for `d < 10`.
pub open spec fn digit_char(d: nat) -> char {
    ((d + 48) as int) as char
}

/// The value of a string of decimal digits, most significant first.
pub open spec fn digits_value(g: Seq<char>) -> nat
    decreases g.len(),
{
    if g.len() == 0 {
        0
    } else {
        digits_value(g.drop_last()) * 10 + digit_value(g.last())
    }
}

/// The shortest decimal text of `n`: no leading zeros, and `"0"` for zero.
pub open spec fn decimal_text(n: nat) -> Seq<char>
    decreases n,
{
    if n < 10 {
        seq![digit_char(n)]
    } else {
        decimal_text(n / 10).push(digit_char(n % 10))
    }
}

/// The dotted-decimal text of an address, as `Ipv4Addr`'s `Display` writes
/// it: `"a.b.c.d"`.
pub open spec fn ipv4_text(a: Ipv4Address) -> Seq<char> {
    decimal_text(a.0 as nat) + seq!['.'] + decimal_text(a.1 as nat) + seq!['.'] + decimal_text(
        a.2 as nat,
    ) + seq!['.'] + decimal_text(a.3 as nat)
}

/// The pieces of `s` between its dots: one more piece than `s` has dots.
pub open spec fn split_dots(s: Seq<char>) -> Seq<Seq<char>>
    decreases s.len(),
{
    if s.len() == 0 {
        seq![Seq::<char>::empty()]
    } else {
        let parts = split_dots(s.drop_last());
        if s.last() == '.' {
            parts.push(Seq::<char>::empty())
        } else {
            parts.update(parts.len() - 1, parts.last().push(s.last()))
        }
    }
}

/// The pieces joined back with dots between them.
pub open spec fn join_dots(parts: Seq<Seq<char>>) -> Seq<char>
    decreases parts.len(),
{
    if parts.len() == 0 {
        Seq::<char>::empty()
    } else if parts.len() == 1 {
        parts[0]
    } else {
        join_dots(parts.drop_last()) + seq!['.'] + parts.last()
    }
}

/// `g` is text that the standard IPv4 parser takes as one octet: one to
/// three decimal digits, no leading zero unless the octet is `"0"`, and a
/// value of at most 255.
pub open spec fn is_octet_text(g: Seq<char>) -> bool {
    &&& 1 <= g.len() <= 3
    &&& forall|i: int| 0 <= i < g.len() ==> is_digit(#[trigger] g[i])
    &&& (g.len() > 1 ==> g[0] != '0')
    &&& digits_value(g) <= 255
}

/// What `"...".parse::<Ipv4Addr>()` gives: exactly four octet texts
/// separated by dots, and nothing else; `None` where the standard parser
/// reports an error.
pub open spec fn parse_ipv4(s: Seq<char>) -> Option<Ipv4Address> {
    let parts = split_dots(s);
    if parts.len() == 4 && is_octet_text(parts[0]) && is_octet_text(parts[1]) && is_octet_text(
        parts[2],
    ) && is_octet_text(parts[3]) {
        Some(
            Ipv4Address(
                digits_value(parts[0]) as u8,
                digits_value(parts[1]) as u8,
                digits_value(parts[2]) as u8,
                digits_value(parts[3]) as u8,
            ),
        )
    } else {
        None
    }
}

/// `split_dots` always gives at least one piece.
proof fn lemma_split_nonempty(s: Seq<char>)
    ensures
        split_dots(s).len() >= 1,
    decreases s.len(),
{
    if s.len() > 0 {
        lemma_split_nonempty(s.drop_last());
    }
}

/// Text without dots is a single piece.
proof fn lemma_split_no_dots(q: Seq<char>)
    requires
        forall|i: int| 0 <= i < q.len() ==> q[i] != '.',
    ensures
        split_dots(q) == seq![q],
    decreases q.len(),
{
    if q.len() > 0 {
        let q0 = q.drop_last();
        assert forall|i: int| 0 <= i < q0.len() implies q0[i] != '.' by {
            assert(q0[i] == q[i]);
        }
        lemma_split_no_dots(q0);
        assert(q0.push(q.last()) =~= q);
        assert(q[q.len() - 1] != '.');
        assert(split_dots(q) =~= seq![q]);
    } else {
        assert(q =~= Seq::<char>::empty());
        assert(split_dots(q) =~= seq![q]);
    }
}

/// A dot between two texts splits them apart.
proof fn lemma_split_concat(p: Seq<char>, q: Seq<char>)
    ensures
        split_dots(p + seq!['.'] + q) == split_dots(p) + split_dots(q),
    decreases q.len(),
{
    let s = p + seq!['.'] + q;
    if q.len() == 0 {
        assert(s.drop_last() =~= p);
        assert(split_dots(s) =~= split_dots(p) + split_dots(q));
    } else {
        let q0 = q.drop_last();
        lemma_split_concat(p, q0);
        lemma_split_nonempty(q0);
        lemma_split_nonempty(p);
        assert(s.drop_last() =~= p + seq!['.'] + q0);
        let a = split_dots(p);
        let b = split_dots(q0);
        if q.last() == '.' {
            assert(split_dots(s) =~= a + b.push(Seq::<char>::empty()));
        } else {
            assert(split_dots(s) =~= a + b.update(b.len() - 1, b.last().push(q.last())));
        }
    }
}

/// Joining the pieces of `s` gives `s` back.
proof fn lemma_join_split(s: Seq<char>)
    ensures
        join_dots(split_dots(s)) == s,
    decreases s.len(),
{
    if s.len() > 0 {
        let s0 = s.drop_last();
        lemma_join_split(s0);
        lemma_split_nonempty(s0);
        let p = split_dots(s0);
        let c = s.last();
        assert(s0.push(c) =~= s);
        if c == '.' {
            let p1 = p.push(Seq::<char>::empty());
            assert(p1.drop_last() =~= p);
            assert(join_dots(p1) =~= s);
        } else {
            let p1 = p.update(p.len() - 1, p.last().push(c));
            if p.len() == 1 {
                assert(join_dots(p1) =~= s);
            } else {
                assert(p1.drop_last() =~= p.drop_last());
                assert(join_dots(p1) =~= join_dots(p.drop_last()) + seq!['.'] + p.last().push(c));
                assert(join_dots(p1) =~= s);
            }
        }
    }
}

/// A digit string is worth at least any of its prefixes.
pub proof fn lemma_digits_value_prefix(g: Seq<char>, k: int)
    requires
        0 <= k <= g.len(),
        all_digits(g),
    ensures
        digits_value(g) >= digits_value(g.take(k)),
    decreases g.len(),
{
    if k < g.len() {
        let g0 = g.drop_last();
        assert forall|i: int| 0 <= i < g0.len() implies is_digit(#[trigger] g0[i]) by {
            assert(g0[i] == g[i]);
        }
        lemma_digits_value_prefix(g0, k);
        assert(g0.take(k) =~= g.take(k));
    } else {
        assert(g.take(k) =~= g);
    }
}

/// The decimal digit characters round-trip through their values.
proof fn lemma_digit_roundtrip(c: char)
    requires
        is_digit(c),
    ensures
        digit_char(digit_value(c)) == c,
        digit_value(c) < 10,
{
}

/// Facts about the decimal text of an octet value.
proof fn lemma_decimal_text_octet(n: nat)
    requires
        n <= 255,
    ensures
        is_octet_text(decimal_text(n)),
        digits_value(decimal_text(n)) == n,
        forall|i: int| 0 <= i < decimal_text(n).len() ==> #[trigger] decimal_text(n)[i] != '.',
{
    reveal_with_fuel(decimal_text, 3);
    reveal_with_fuel(digits_value, 4);
    let t = decimal_text(n);
    if n < 10 {
        assert(t =~= seq![digit_char(n)]);
        assert(t.drop_last() =~= Seq::<char>::empty());
    } else if n < 100 {
        assert(t =~= seq![digit_char(n / 10), digit_char(n % 10)]);
        assert(t.drop_last() =~= seq![digit_char(n / 10)]);
        assert(t.drop_last().drop_last() =~= Seq::<char>::empty());
    } else {
        assert(t =~= seq![digit_char(n / 100), digit_char((n / 10) % 10), digit_char(n % 10)]);
        assert(t.drop_last() =~= seq![digit_char(n / 100), digit_char((n / 10) % 10)]);
        assert(t.drop_last().drop_last() =~= seq![digit_char(n / 100)]);
        assert(t.drop_last().drop_last().drop_last() =~= Seq::<char>::empty());
    }
}

/// A digit string whose first digit is not zero has a positive value.
proof fn lemma_digits_positive(g: Seq<char>)
    requires
        g.len() >= 1,
        forall|i: int| 0 <= i < g.len() ==> is_digit(#[trigger] g[i]),
        g[0] != '0',
    ensures
        digits_value(g) >= 1,
    decreases g.len(),
{
    if g.len() > 1 {
        let g0 = g.drop_last();
        assert(g0[0] == g[0]);
        assert forall|i: int| 0 <= i < g0.len() implies is_digit(#[trigger] g0[i]) by {
            assert(g0[i] == g[i]);
        }
        lemma_digits_positive(g0);
    } else {
        assert(g.drop_last() =~= Seq::<char>::empty());
    }
}

/// A digit string without leading zeros is the decimal text of its value.
proof fn lemma_decimal_text_of_value(g: Seq<char>)
    requires
        g.len() >= 1,
        forall|i: int| 0 <= i < g.len() ==> is_digit(#[trigger] g[i]),
        g.len() > 1 ==> g[0] != '0',
    ensures
        decimal_text(digits_value(g)) == g,
    decreases g.len(),
{
    let c = g.last();
    assert(is_digit(g[g.len() - 1]));
    lemma_digit_roundtrip(c);
    if g.len() == 1 {
        assert(g.drop_last() =~= Seq::<char>::empty());
        assert(digits_value(g) == digits_value(g.drop_last()) * 10 + digit_value(c));
        assert(digits_value(g) == digit_value(c));
        assert(g =~= seq![c]);
        assert(decimal_text(digits_value(g)) =~= g);
    } else {
        let g0 = g.drop_last();
        assert(g0[0] == g[0]);
        assert forall|i: int| 0 <= i < g0.len() implies is_digit(#[trigger] g0[i]) by {
            assert(g0[i] == g[i]);
        }
        lemma_digits_positive(g0);
        lemma_decimal_text_of_value(g0);
        let v = digits_value(g);
        assert(v == digits_value(g0) * 10 + digit_value(c));
        assert(v / 10 == digits_value(g0));
        assert(v % 10 == digit_value(c));
        assert(g0.push(c) =~= g);
    }
}

/// The decimal text of a number is a non-empty string of digits worth that
/// number.
pub proof fn lemma_decimal_text_value(n: nat)
    ensures
        decimal_text(n).len() >= 1,
        all_digits(decimal_text(n)),
        digits_value(decimal_text(n)) == n,
    decreases n,
{
    let t = decimal_text(n);
    if n < 10 {
        assert(t =~= seq![digit_char(n)]);
        assert(t.drop_last() =~= Seq::<char>::empty());
        assert(digit_value(digit_char(n)) == n);
        assert(digits_value(t.drop_last()) == 0);
        assert(t.last() == digit_char(n));
        assert(digits_value(t) == digits_value(t.drop_last()) * 10 + digit_value(t.last()));
    } else {
        lemma_decimal_text_value(n / 10);
        let t0 = decimal_text(n / 10);
        assert(t == t0.push(digit_char(n % 10)));
        assert(t.drop_last() =~= t0);
        assert(digit_value(digit_char(n % 10)) == n % 10);
        assert(t.last() == digit_char(n % 10));
        assert(digits_value(t) == digits_value(t0) * 10 + digit_value(t.last()));
        assert((n / 10) * 10 + n % 10 == n);
        assert forall|i: int| 0 <= i < t.len() implies is_digit(#[trigger] t[i]) by {
            if i < t0.len() {
                assert(t[i] == t0[i]);
            }
        }
    }
}

/// Parsing the text of an address gives the address back.
pub proof fn lemma_parse_ipv4_text(a: Ipv4Address)
    ensures
        parse_ipv4(ipv4_text(a)) == Some(a),
{
    let d0 = decimal_text(a.0 as nat);
    let d1 = decimal_text(a.1 as nat);
    let d2 = decimal_text(a.2 as nat);
    let d3 = decimal_text(a.3 as nat);
    lemma_decimal_text_octet(a.0 as nat);
    lemma_decimal_text_octet(a.1 as nat);
    lemma_decimal_text_octet(a.2 as nat);
    lemma_decimal_text_octet(a.3 as nat);
    lemma_split_no_dots(d0);
    lemma_split_no_dots(d1);
    lemma_split_no_dots(d2);
    lemma_split_no_dots(d3);
    lemma_split_concat(d0, d1);
    lemma_split_concat(d0 + seq!['.'] + d1, d2);
    lemma_split_concat(d0 + seq!['.'] + d1 + seq!['.'] + d2, d3);
    let parts = split_dots(ipv4_text(a));
    assert(parts =~= seq![d0, d1, d2, d3]);
}

/// Text that parses is the canonical text of the address it parses to.
pub proof fn lemma_ipv4_text_of_parse(s: Seq<char>)
    requires
        parse_ipv4(s) is Some,
    ensures
        ipv4_text(parse_ipv4(s).unwrap()) == s,
{
    let parts = split_dots(s);
    let a = parse_ipv4(s).unwrap();
    lemma_join_split(s);
    lemma_decimal_text_of_value(parts[0]);
    lemma_decimal_text_of_value(parts[1]);
    lemma_decimal_text_of_value(parts[2]);
    lemma_decimal_text_of_value(parts[3]);
    assert(parts.drop_last().drop_last().drop_last() =~= seq![parts[0]]);
    assert(parts.drop_last().drop_last() =~= seq![parts[0], parts[1]]);
    assert(parts.drop_last() =~= seq![parts[0], parts[1], parts[2]]);
    assert(join_dots(parts.drop_last().drop_last().drop_last()) == parts[0]);
    assert(join_dots(parts.drop_last().drop_last()) =~= parts[0] + seq!['.'] + parts[1]);
    assert(join_dots(parts.drop_last()) =~= parts[0] + seq!['.'] + parts[1] + seq!['.'] + parts[2]);
    assert(ipv4_text(a) =~= join_dots(parts));
}


/// The pieces of a prefix of `s` are a prefix of the pieces of `s`: all but
/// the last piece of the prefix are pieces of `s`, and its last piece starts
/// the piece of `s` at the same place.
proof fn lemma_split_prefix(s: Seq<char>, k: int)
    requires
        0 <= k <= s.len(),
    ensures
        ({
            let a = split_dots(s.take(k));
            let c = split_dots(s);
            &&& a.len() <= c.len()
            &&& forall|j: int| 0 <= j < a.len() - 1 ==> #[trigger] c[j] == a[j]
            &&& a.last().len() <= c[a.len() - 1].len()
            &&& forall|m: int| 0 <= m < a.last().len() ==> #[trigger] c[a.len() - 1][m] == a.last()[m]
        }),
    decreases s.len() - k,
{
    let a = split_dots(s.take(k));
    let c = split_dots(s);
    lemma_split_nonempty(s.take(k));
    if k == s.len() {
        assert(s.take(k) =~= s);
    } else {
        lemma_split_prefix(s, k + 1);
        let t = s.take(k + 1);
        assert(t.drop_last() =~= s.take(k));
        let b = split_dots(t);
        let l = a.len() - 1;
        if t.last() == '.' {
            assert(b == a.push(Seq::<char>::empty()));
            assert forall|j: int| 0 <= j < a.len() - 1 implies #[trigger] c[j] == a[j] by {
                assert(b[j] == a[j]);
                assert(c[j] == b[j]);
            }
            assert(c[l] == b[l]);
            assert(b[l] == a[l]);
        } else {
            assert(b == a.update(l, a.last().push(t.last())));
            assert forall|j: int| 0 <= j < a.len() - 1 implies #[trigger] c[j] == a[j] by {
                assert(b[j] == a[j]);
                assert(c[j] == b[j]);
            }
            assert(b.last() == a.last().push(t.last()));
            assert forall|m: int| 0 <= m < a.last().len() implies #[trigger] c[l][m] == a.last()[m] by {
                assert(b.last()[m] == a.last()[m]);
                assert(c[l][m] == b.last()[m]);
            }
        }
    }
}

/// The ASCII digit text of `d < 10`.
fn digit_str(d: u8) -> (s: &'static str)
    requires
        d < 10,
    ensures
        s@ == seq![digit_char(d as nat)],
{
    if d == 0 {
        proof {
            reveal_strlit("0");
        }
        "0"
    } else if d == 1 {
        proof {
            reveal_strlit("1");
        }
        "1"
    } else if d == 2 {
        proof {
            reveal_strlit("2");
        }
        "2"
    } else if d == 3 {
        proof {
            reveal_strlit("3");
        }
        "3"
    } else if d == 4 {
        proof {
            reveal_strlit("4");
        }
        "4"
    } else if d == 5 {
        proof {
            reveal_strlit("5");
        }
        "5"
    } else if d == 6 {
        proof {
            reveal_strlit("6");
        }
        "6"
    } else if d == 7 {
        proof {
            reveal_strlit("7");
        }
        "7"
    } else if d == 8 {
        proof {
            reveal_strlit("8");
        }
        "8"
    } else {
        proof {
            reveal_strlit("9");
        }
        "9"
    }
}

/// Appends the decimal text of `n`.
fn push_decimal(text: &mut String, n: u8)
    ensures
        final(text)@ == old(text)@ + decimal_text(n as nat),
{
    reveal_with_fuel(decimal_text, 3);
    let ghost start = text@;
    if n >= 100 {
        text.append(digit_str(n / 100));
    }
    if n >= 10 {
        text.append(digit_str((n / 10) % 10));
    }
    text.append(digit_str(n % 10));
    proof {
        let t = decimal_text(n as nat);
        if n < 10 {
            assert(t =~= seq![digit_char(n as nat)]);
        } else if n < 100 {
            assert(t =~= seq![digit_char((n / 10) as nat), digit_char((n % 10) as nat)]);
        } else {
            assert(t =~= seq![
                digit_char((n / 100) as nat),
                digit_char(((n / 10) % 10) as nat),
                digit_char((n % 10) as nat),
            ]);
        }
        assert(text@ =~= start + t);
    }
}

/// `g` is one octet text of value `v`.
pub open spec fn is_octet_of(g: Seq<char>, v: u8) -> bool {
    is_octet_text(g) && digits_value(g) == v
}

impl Ipv4Address {
    /// The loopback address `127.0.0.1`.
    pub open spec fn spec_localhost() -> Ipv4Address {
        Ipv4Address(127, 0, 0, 1)
    }

    /// The loopback address `127.0.0.1`, as `Ipv4Addr::LOCALHOST`.
    pub fn localhost() -> (a: Ipv4Address)
        ensures
            a == Self::spec_localhost(),
    {
        Ipv4Address(127, 0, 0, 1)
    }

    /// The dotted-decimal text of the address, as `Ipv4Addr::to_string`.
    pub fn to_text(&self) -> (text: String)
        ensures
            text@ == ipv4_text(*self),
    {
        let mut text = String::new();
        push_decimal(&mut text, self.0);
        text.append(".");
        push_decimal(&mut text, self.1);
        text.append(".");
        push_decimal(&mut text, self.2);
        text.append(".");
        push_decimal(&mut text, self.3);
        proof {
            reveal_strlit(".");
            assert(text@ =~= ipv4_text(*self));
        }
        text
    }

    /// Parses dotted-decimal text, as `"...".parse::<Ipv4Addr>().ok()`:
    /// `None` wherever the standard parser reports an error.
    pub fn parse(text: &str) -> (r: Option<Ipv4Address>)
        ensures
            r == parse_ipv4(text@),
    {
        let ghost s = text@;
        let n = text.unicode_len();
        let mut i: usize = 0;
        let mut done: usize = 0;
        let mut o0: u8 = 0;
        let mut o1: u8 = 0;
        let mut o2: u8 = 0;
        let mut cur_len: usize = 0;
        let mut cur_val: u32 = 0;
        let mut leading_zero: bool = false;
        proof {
            assert(s.take(0) =~= Seq::<char>::empty());
        }
        while i < n
            invariant
                text@ == s,
                n == s.len(),
                i <= n,
                done <= 3,
                split_dots(s.take(i as int)).len() == done + 1,
                done > 0 ==> is_octet_of(split_dots(s.take(i as int))[0], o0),
                done > 1 ==> is_octet_of(split_dots(s.take(i as int))[1], o1),
                done > 2 ==> is_octet_of(split_dots(s.take(i as int))[2], o2),
                cur_len == split_dots(s.take(i as int))[done as int].len(),
                cur_len <= 3,
                forall|m: int|
                    0 <= m < cur_len ==> is_digit(
                        #[trigger] split_dots(s.take(i as int))[done as int][m],
                    ),
                cur_val == digits_value(split_dots(s.take(i as int))[done as int]),
                cur_len == 0 ==> cur_val == 0,
                cur_len <= 1 ==> cur_val < 10,
                cur_len <= 2 ==> cur_val < 100,
                cur_val < 1000,
                cur_len >= 1 ==> (leading_zero <==> split_dots(s.take(i as int))[done as int][0]
                    == '0'),
            decreases n - i,
        {
            let c = text.get_char(i);
            let code = c as u32;
            let ghost p = split_dots(s.take(i as int));
            let ghost t = s.take(i + 1);
            proof {
                assert(t.drop_last() =~= s.take(i as int));
                assert(t.last() == c);
                lemma_split_prefix(s, i + 1);
                lemma_split_nonempty(s.take(i as int));
            }
            if c == '.' {
                proof {
                    assert(split_dots(t) == p.push(Seq::<char>::empty()));
                }
                let valid = cur_len >= 1 && !(cur_len > 1 && leading_zero) && cur_val <= 255;
                if !valid {
                    proof {
                        assert(split_dots(s)[done as int] == p[done as int]);
                        assert(!is_octet_text(p[done as int]));
                    }
                    return None;
                }
                if done == 3 {
                    return None;
                }
                proof {
                    assert(is_octet_of(p[done as int], cur_val as u8));
                }
                if done == 0 {
                    o0 = cur_val as u8;
                } else if done == 1 {
                    o1 = cur_val as u8;
                } else {
                    o2 = cur_val as u8;
                }
                done = done + 1;
                cur_len = 0;
                cur_val = 0;
                leading_zero = false;
            } else if 48 <= code && code <= 57 {
                let d = code - 48;
                let ghost g = p[done as int];
                proof {
                    assert(split_dots(t) == p.update(done as int, g.push(c)));
                }
                if cur_len == 3 {
                    proof {
                        assert(split_dots(t).last() == g.push(c));
                        assert(split_dots(s)[done as int].len() >= 4);
                    }
                    return None;
                }
                proof {
                    assert(g.push(c).drop_last() =~= g);
                    assert(digits_value(g.push(c)) == cur_val * 10 + d);
                    if cur_len >= 1 {
                        assert(g.push(c)[0] == g[0]);
                    }
                }
                if cur_len == 0 {
                    leading_zero = code == 48;
                }
                cur_val = cur_val * 10 + d;
                cur_len = cur_len + 1;
                proof {
                    let g2 = g.push(c);
                    assert forall|m: int| 0 <= m < cur_len implies is_digit(#[trigger] g2[m]) by {
                        if m < cur_len - 1 {
                            assert(g2[m] == g[m]);
                        }
                    }
                }
            } else {
                proof {
                    let g = p[done as int];
                    assert(split_dots(t) == p.update(done as int, g.push(c)));
                    assert(split_dots(t).last() == g.push(c));
                    assert(split_dots(t).last()[cur_len as int] == c);
                    assert(split_dots(s)[done as int][cur_len as int] == c);
                    assert(!is_octet_text(split_dots(s)[done as int]));
                }
                return None;
            }
            i = i + 1;
        }
        proof {
            assert(s.take(n as int) =~= s);
        }
        let valid = cur_len >= 1 && !(cur_len > 1 && leading_zero) && cur_val <= 255;
        if valid && done == 3 {
            Some(Ipv4Address(o0, o1, o2, cur_val as u8))
        } else {
            None
        }
    }
}

} // verus!
