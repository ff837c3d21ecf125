//! Character-level building blocks shared by every instruction: joining
//! lists, quoting, decimal numbers and optional flags.

use vstd::prelude::*;

verus! {

/// The characters of each string of `v`.
pub open spec fn views(v: Seq<String>) -> Seq<Seq<char>> {
    v.map_values(|s: String| s@)
}

/// The characters of each string slice of `v`.
pub open spec fn str_views(v: Seq<&str>) -> Seq<Seq<char>> {
    v.map_values(|s: &str| s@)
}

/// The characters of an optional string.
pub open spec fn opt_view(o: Option<String>) -> Option<Seq<char>> {
    match o {
        Some(s) => Some(s@),
        None => None,
    }
}

/// The items of `items`, with `sep` between each two neighbours.
pub open spec fn join(items: Seq<Seq<char>>, sep: Seq<char>) -> Seq<char>
    decreases items.len(),
{
    if items.len() == 0 {
        Seq::empty()
    } else if items.len() == 1 {
        items[0]
    } else {
        join(items.drop_last(), sep) + sep + items.last()
    }
}

/// `s` between double quotes.
pub open spec fn quote(s: Seq<char>) -> Seq<char> {
    seq!['"'] + s + seq!['"']
}

/// Each item between double quotes.
pub open spec fn quote_all(items: Seq<Seq<char>>) -> Seq<Seq<char>> {
    items.map_values(|s: Seq<char>| quote(s))
}

/// `prefix`, the value and `suffix` when the value is there; nothing otherwise.
pub open spec fn opt_part(prefix: Seq<char>, value: Option<Seq<char>>, suffix: Seq<char>) -> Seq<
    char,
> {
    match value {
        Some(v) => prefix + v + suffix,
        None => Seq::empty(),
    }
}

/// `prefix` and the value when the value is there; nothing otherwise.
pub open spec fn opt_prefixed(prefix: Seq<char>, value: Option<Seq<char>>) -> Seq<char> {
    match value {
        Some(v) => prefix + v,
        None => Seq::empty(),
    }
}

/// The strings of an optional list; none when the list is absent.
pub open spec fn opt_list(o: Option<Vec<String>>) -> Seq<Seq<char>> {
    match o {
        Some(v) => views(v@),
        None => Seq::empty(),
    }
}

/// The strings of an optional list, when it is there.
pub open spec fn opt_views(o: Option<Vec<String>>) -> Option<Seq<Seq<char>>> {
    match o {
        Some(v) => Some(views(v@)),
        None => None,
    }
}

/// A one-item list holding the value, or an empty list.
pub open spec fn opt_single(o: Option<Seq<char>>) -> Seq<Seq<char>> {
    match o {
        Some(v) => seq![v],
        None => Seq::empty(),
    }
}

/// The exec form `["item", "item", ...]`: each item between double quotes,
/// separated by `, `, the whole between square brackets.
pub open spec fn exec_array(items: Seq<Seq<char>>) -> Seq<char> {
    "["@ + join(quote_all(items), ", "@) + "]"@
}

/// `prefix`, the number in decimal and `suffix` when the number is there;
/// nothing otherwise.
pub open spec fn opt_decimal_part(prefix: Seq<char>, n: Option<nat>, suffix: Seq<char>) -> Seq<
    char,
> {
    match n {
        Some(k) => prefix + decimal(k) + suffix,
        None => Seq::empty(),
    }
}

/// An optional number as a natural number.
pub open spec fn opt_nat(n: Option<u64>) -> Option<nat> {
    match n {
        Some(k) => Some(k as nat),
        None => None,
    }
}

/// An optional small number as a natural number.
pub open spec fn opt_nat16(n: Option<u16>) -> Option<nat> {
    match n {
        Some(k) => Some(k as nat),
        None => None,
    }
}

/// `prefix`, `true` or `false`, and `suffix` when the flag is there; nothing
/// otherwise.
pub open spec fn opt_bool_part(prefix: Seq<char>, b: Option<bool>, suffix: Seq<char>) -> Seq<char> {
    match b {
        Some(v) => prefix + bool_text(v) + suffix,
        None => Seq::empty(),
    }
}

/// `prefix`, the number in decimal (with its sign) and `suffix` when the
/// number is there; nothing otherwise.
pub open spec fn opt_signed_part(prefix: Seq<char>, n: Option<i32>, suffix: Seq<char>) -> Seq<char> {
    match n {
        Some(k) => prefix + signed_decimal(k as int) + suffix,
        None => Seq::empty(),
    }
}

/// The character of a decimal digit.
pub open spec fn digit(d: nat) -> char {
    if d == 0 {
        '0'
    } else if d == 1 {
        '1'
    } else if d == 2 {
        '2'
    } else if d == 3 {
        '3'
    } else if d == 4 {
        '4'
    } else if d == 5 {
        '5'
    } else if d == 6 {
        '6'
    } else if d == 7 {
        '7'
    } else if d == 8 {
        '8'
    } else {
        '9'
    }
}

/// The decimal digits of `n`, most significant first, without leading zeros.
pub open spec fn decimal(n: nat) -> Seq<char>
    decreases n,
{
    if n < 10 {
        seq![digit(n)]
    } else {
        decimal(n / 10).push(digit(n % 10))
    }
}

/// `i` in decimal, with a leading `-` when it is negative.
pub open spec fn signed_decimal(i: int) -> Seq<char> {
    if i < 0 {
        seq!['-'] + decimal((-i) as nat)
    } else {
        decimal(i as nat)
    }
}

/// `true` or `false`.
pub open spec fn bool_text(b: bool) -> Seq<char> {
    if b {
        seq!['t', 'r', 'u', 'e']
    } else {
        seq!['f', 'a', 'l', 's', 'e']
    }
}

/// A string holding the characters of `s`.
pub fn owned(s: &str) -> (r: String)
    ensures
        r@ == s@,
{
    s.to_owned()
}

/// Copies of the strings of `v`.
pub fn owned_all(v: &Vec<&str>) -> (r: Vec<String>)
    ensures
        views(r@) == str_views(v@),
{
    let mut r: Vec<String> = Vec::new();
    let mut i: usize = 0;
    while i < v.len()
        invariant
            i <= v.len(),
            r@.len() == i,
            forall|j: int| 0 <= j < i ==> #[trigger] r@[j]@ == v@[j]@,
        decreases v.len() - i,
    {
        r.push(owned(v[i]));
        i = i + 1;
    }
    assert(views(r@) =~= str_views(v@));
    r
}

/// Appends the items of `items` to `s`, with `sep` between each two neighbours.
pub fn push_join(s: &mut String, items: &Vec<String>, sep: &str)
    ensures
        final(s)@ == old(s)@ + join(views(items@), sep@),
{
    let ghost start = s@;
    let ghost all = views(items@);
    let mut i: usize = 0;
    assert(all.take(0) =~= Seq::<Seq<char>>::empty());
    while i < items.len()
        invariant
            i <= items.len(),
            all == views(items@),
            s@ == start + join(all.take(i as int), sep@),
        decreases items.len() - i,
    {
        if i > 0 {
            s.append(sep);
        }
        s.append(items[i].as_str());
        proof {
            let t = all.take(i + 1);
            assert(t.drop_last() =~= all.take(i as int));
            assert(t.last() == items@[i as int]@);
            assert(s@ =~= start + join(t, sep@));
        }
        i = i + 1;
    }
    assert(all.take(items@.len() as int) =~= all);
}

/// The strings of `items`, each between double quotes.
pub fn quoted_all(items: &Vec<String>) -> (r: Vec<String>)
    ensures
        views(r@) == quote_all(views(items@)),
{
    let mut r: Vec<String> = Vec::new();
    let mut i: usize = 0;
    while i < items.len()
        invariant
            i <= items.len(),
            r@.len() == i,
            forall|j: int| 0 <= j < i ==> #[trigger] r@[j]@ == quote(items@[j]@),
        decreases items.len() - i,
    {
        let mut q = owned("\"");
        q.append(items[i].as_str());
        q.append("\"");
        proof {
            reveal_strlit("\"");
            assert(q@ =~= quote(items@[i as int]@));
        }
        r.push(q);
        i = i + 1;
    }
    assert(views(r@) =~= quote_all(views(items@)));
    r
}

/// The character of the digit `d`, as a string.
fn digit_str(d: u64) -> (r: &'static str)
    requires
        d < 10,
    ensures
        r@ == seq![digit(d as nat)],
{
    if d == 0 {
        proof {
            reveal_strlit("0");
        }
        "0"
    } else if d == 1 {
        proof {
            reveal_strlit("1");
        }
        "1"
    } else if d == 2 {
        proof {
            reveal_strlit("2");
        }
        "2"
    } else if d == 3 {
        proof {
            reveal_strlit("3");
        }
        "3"
    } else if d == 4 {
        proof {
            reveal_strlit("4");
        }
        "4"
    } else if d == 5 {
        proof {
            reveal_strlit("5");
        }
        "5"
    } else if d == 6 {
        proof {
            reveal_strlit("6");
        }
        "6"
    } else if d == 7 {
        proof {
            reveal_strlit("7");
        }
        "7"
    } else if d == 8 {
        proof {
            reveal_strlit("8");
        }
        "8"
    } else {
        proof {
            reveal_strlit("9");
        }
        "9"
    }
}

/// Appends `n` in decimal to `s`.
pub fn push_decimal(s: &mut String, n: u64)
    ensures
        final(s)@ == old(s)@ + decimal(n as nat),
    decreases n,
{
    let ghost start = s@;
    if n >= 10 {
        push_decimal(s, n / 10);
    }
    s.append(digit_str(n % 10));
    proof {
        if n >= 10 {
            assert(decimal(n as nat) == decimal((n / 10) as nat).push(digit((n % 10) as nat)));
        }
        assert(s@ =~= start + decimal(n as nat));
    }
}

/// Appends `i` in decimal to `s`, with a leading `-` when it is negative.
pub fn push_signed_decimal(s: &mut String, i: i64)
    ensures
        final(s)@ == old(s)@ + signed_decimal(i as int),
{
    let ghost start = s@;
    if i < 0 {
        s.append("-");
        proof {
            reveal_strlit("-");
        }
        let magnitude: u64 = if i == i64::MIN {
            9223372036854775808u64
        } else {
            (-i) as u64
        };
        push_decimal(s, magnitude);
        assert(s@ =~= start + signed_decimal(i as int));
    } else {
        push_decimal(s, i as u64);
    }
}

/// Appends `true` or `false` to `s`.
pub fn push_bool(s: &mut String, b: bool)
    ensures
        final(s)@ == old(s)@ + bool_text(b),
{
    if b {
        s.append("true");
        proof {
            reveal_strlit("true");
        }
    } else {
        s.append("false");
        proof {
            reveal_strlit("false");
        }
    }
}

/// Appends `prefix`, the value and `suffix` to `s` when the value is there.
pub fn push_opt(s: &mut String, prefix: &str, value: &Option<String>, suffix: &str)
    ensures
        final(s)@ == old(s)@ + opt_part(prefix@, opt_view(*value), suffix@),
{
    let ghost start = s@;
    match value {
        Some(v) => {
            s.append(prefix);
            s.append(v.as_str());
            s.append(suffix);
            assert(s@ =~= start + opt_part(prefix@, opt_view(*value), suffix@));
        },
        None => {
            assert(s@ =~= start + opt_part(prefix@, opt_view(*value), suffix@));
        },
    }
}

/// Appends `prefix` and the value to `s` when the value is there.
pub fn push_opt_prefixed(s: &mut String, prefix: &str, value: &Option<String>)
    ensures
        final(s)@ == old(s)@ + opt_prefixed(prefix@, opt_view(*value)),
{
    let ghost start = s@;
    match value {
        Some(v) => {
            s.append(prefix);
            s.append(v.as_str());
            assert(s@ =~= start + opt_prefixed(prefix@, opt_view(*value)));
        },
        None => {
            assert(s@ =~= start + opt_prefixed(prefix@, opt_view(*value)));
        },
    }
}

/// Appends `prefix`, the number in decimal and `suffix` to `s` when the
/// number is there.
pub fn push_opt_decimal(s: &mut String, prefix: &str, n: Option<u64>, suffix: &str)
    ensures
        final(s)@ == old(s)@ + opt_decimal_part(prefix@, opt_nat(n), suffix@),
{
    let ghost start = s@;
    match n {
        Some(k) => {
            s.append(prefix);
            push_decimal(s, k);
            s.append(suffix);
        },
        None => {},
    }
    assert(s@ =~= start + opt_decimal_part(prefix@, opt_nat(n), suffix@));
}

/// Appends `prefix`, the number in decimal and `suffix` to `s` when the
/// number is there.
pub fn push_opt_decimal16(s: &mut String, prefix: &str, n: Option<u16>, suffix: &str)
    ensures
        final(s)@ == old(s)@ + opt_decimal_part(prefix@, opt_nat16(n), suffix@),
{
    let wide: Option<u64> = match n {
        Some(k) => Some(k as u64),
        None => None,
    };
    assert(opt_nat(wide) == opt_nat16(n));
    push_opt_decimal(s, prefix, wide, suffix);
}

/// Appends `prefix`, the number in decimal (with its sign) and `suffix` to
/// `s` when the number is there.
pub fn push_opt_signed(s: &mut String, prefix: &str, n: Option<i32>, suffix: &str)
    ensures
        final(s)@ == old(s)@ + opt_signed_part(prefix@, n, suffix@),
{
    let ghost start = s@;
    match n {
        Some(k) => {
            s.append(prefix);
            push_signed_decimal(s, k as i64);
            s.append(suffix);
        },
        None => {},
    }
    assert(s@ =~= start + opt_signed_part(prefix@, n, suffix@));
}

/// Appends `prefix`, `true` or `false`, and `suffix` to `s` when the flag
/// is there.
pub fn push_opt_bool(s: &mut String, prefix: &str, b: Option<bool>, suffix: &str)
    ensures
        final(s)@ == old(s)@ + opt_bool_part(prefix@, b, suffix@),
{
    let ghost start = s@;
    match b {
        Some(v) => {
            s.append(prefix);
            push_bool(s, v);
            s.append(suffix);
        },
        None => {},
    }
    assert(s@ =~= start + opt_bool_part(prefix@, b, suffix@));
}

/// Appends the exec form of `items` to `s`.
pub fn push_exec_array(s: &mut String, items: &Vec<String>)
    ensures
        final(s)@ == old(s)@ + exec_array(views(items@)),
{
    let ghost start = s@;
    s.append("[");
    let quoted = quoted_all(items);
    push_join(s, &quoted, ", ");
    s.append("]");
    assert(s@ =~= start + exec_array(views(items@)));
}

/// `head` followed by copies of the strings of `rest`, if any.
pub fn list_after(head: &String, rest: &Option<Vec<String>>) -> (r: Vec<String>)
    ensures
        views(r@) == seq![head@] + opt_list(*rest),
{
    let mut r: Vec<String> = Vec::new();
    r.push(head.clone());
    push_all(&mut r, rest);
    r
}

/// `head`, if any, followed by copies of the strings of `rest`, if any.
pub fn opt_list_after(head: &Option<String>, rest: &Option<Vec<String>>) -> (r: Vec<String>)
    ensures
        views(r@) == opt_single(opt_view(*head)) + opt_list(*rest),
{
    let mut r: Vec<String> = Vec::new();
    match head {
        Some(h) => r.push(h.clone()),
        None => {},
    }
    assert(views(r@) =~= opt_single(opt_view(*head)));
    push_all(&mut r, rest);
    r
}

/// Appends copies of the strings of `rest`, if any, to `r`.
fn push_all(r: &mut Vec<String>, rest: &Option<Vec<String>>)
    ensures
        views(final(r)@) == views(old(r)@) + opt_list(*rest),
{
    let ghost start = views(r@);
    match rest {
        Some(v) => {
            let mut i: usize = 0;
            while i < v.len()
                invariant
                    i <= v.len(),
                    views(r@) == start + views(v@).take(i as int),
                decreases v.len() - i,
            {
                let ghost before = r@;
                let item = v[i].clone();
                assert(item@ == v@[i as int]@);
                r.push(item);
                proof {
                    assert(views(v@).take(i + 1) =~= views(v@).take(i as int).push(v@[i as int]@));
                    assert(views(r@) =~= views(before).push(item@));
                }
                assert(views(r@) =~= start + views(v@).take(i + 1));
                i = i + 1;
            }
            assert(views(v@).take(v@.len() as int) =~= views(v@));
        },
        None => {
            assert(views(r@) =~= start + opt_list(*rest));
        },
    }
}

} // verus!
