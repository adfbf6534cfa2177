//! Text: numbers in decimal, `host:port` pairs, trimming and letter case.
use vstd::prelude::*;

verus! {

// ---------------------------------------------------------------- what std says of text

/// Whether a character outside ASCII is white space as Unicode defines it.
pub uninterp spec fn is_other_white_space(c: char) -> bool;

/// Whether a character outside ASCII is a letter or a number as Unicode defines them.
pub uninterp spec fn is_other_letter_or_number(c: char) -> bool;

/// The lower case form of a text as Unicode defines it.
pub uninterp spec fn lowercase(s: Seq<char>) -> Seq<char>;

pub open spec fn is_ascii_char(c: char) -> bool {
    (c as int) < 128
}

pub open spec fn is_ascii_text(s: Seq<char>) -> bool {
    forall|i: int| 0 <= i < s.len() ==> is_ascii_char(#[trigger] s[i])
}

pub open spec fn is_ascii_letter_or_digit(c: char) -> bool {
    ('0' <= c && c <= '9') || ('A' <= c && c <= 'Z') || ('a' <= c && c <= 'z')
}

/// Among the ASCII characters the space and those from tab to carriage return are white.
pub open spec fn is_ascii_white_space(c: char) -> bool {
    c == ' ' || (9 <= c as int && c as int <= 13)
}

/// Whether a character is white space.
pub open spec fn is_white_space(c: char) -> bool {
    if is_ascii_char(c) {
        is_ascii_white_space(c)
    } else {
        is_other_white_space(c)
    }
}

/// Whether a character is a letter or a number.
pub open spec fn is_letter_or_number(c: char) -> bool {
    if is_ascii_char(c) {
        is_ascii_letter_or_digit(c)
    } else {
        is_other_letter_or_number(c)
    }
}

/// The lower case form of one ASCII character.
pub open spec fn ascii_lower(c: char) -> char {
    if 'A' <= c && c <= 'Z' {
        (c as int + 32) as char
    } else {
        c
    }
}

/// `char::is_whitespace` tells white space. Which ASCII characters those are is stated; of the
/// others, that the answer depends on the character alone.
pub assume_specification[ char::is_whitespace ](c: char) -> (r: bool)
    ensures
        is_ascii_char(c) ==> r == is_ascii_white_space(c),
        !is_ascii_char(c) ==> r == is_other_white_space(c),
;

/// `char::is_alphanumeric` tells letters and numbers. Which ASCII characters those are is
/// stated; of the others, that the answer depends on the character alone, and that none of
/// them is white space: a character with the property `White_Space` is a separator or a
/// control character, never a letter or a number.
pub assume_specification[ char::is_alphanumeric ](c: char) -> (r: bool)
    ensures
        is_ascii_char(c) ==> r == is_ascii_letter_or_digit(c),
        !is_ascii_char(c) ==> r == is_other_letter_or_number(c),
        r ==> !is_white_space(c),
;

/// `str::to_lowercase` gives the lower case form, which for an ASCII text replaces the
/// letters `A` to `Z` one for one and keeps all else.
pub assume_specification[ str::to_lowercase ](s: &str) -> (r: String)
    ensures
        r@ == lowercase(s@),
        is_ascii_text(s@) ==> r@ == s@.map_values(|c: char| ascii_lower(c)),
;

/// `String::push` appends one character.
pub assume_specification[ String::push ](s: &mut String, ch: char)
    ensures
        final(s)@ == old(s)@.push(ch),
;

// ---------------------------------------------------------------- comparing and joining

/// Whether two texts are equal.
pub fn text_eq(a: &str, b: &str) -> (r: bool)
    ensures
        r == (a@ == b@),
{
    a.to_owned() == b.to_owned()
}

/// The text inside an option.
pub open spec fn opt_text(o: Option<String>) -> Option<Seq<char>> {
    match o {
        Some(s) => Some(s@),
        None => None,
    }
}

/// Copy a text that may be missing.
pub fn clone_text(o: &Option<String>) -> (r: Option<String>)
    ensures
        r == *o,
{
    match o {
        Some(s) => Some(s.clone()),
        None => None,
    }
}

/// Two texts in a row.
pub fn join2(a: &str, b: &str) -> (r: String)
    ensures
        r@ == a@ + b@,
{
    let mut r = a.to_owned();
    r.append(b);
    r
}

/// Three texts in a row.
pub fn join3(a: &str, b: &str, c: &str) -> (r: String)
    ensures
        r@ == a@ + b@ + c@,
{
    let mut r = a.to_owned();
    r.append(b);
    r.append(c);
    r
}

/// Four texts in a row.
pub fn join4(a: &str, b: &str, c: &str, d: &str) -> (r: String)
    ensures
        r@ == a@ + b@ + c@ + d@,
{
    let mut r = a.to_owned();
    r.append(b);
    r.append(c);
    r.append(d);
    r
}

/// Five texts in a row.
pub fn join5(a: &str, b: &str, c: &str, d: &str, e: &str) -> (r: String)
    ensures
        r@ == a@ + b@ + c@ + d@ + e@,
{
    let mut r = a.to_owned();
    r.append(b);
    r.append(c);
    r.append(d);
    r.append(e);
    r
}

/// The characters of a text.
pub fn chars_of(s: &str) -> (v: Vec<char>)
    ensures
        v@ == s@,
{
    let mut v: Vec<char> = Vec::new();
    for c in it: s.chars()
        invariant
            v@ == it.seq().take(it.index()),
            it.seq() == s@,
    {
        v.push(c);
        assert(it.seq().take(it.index() + 1) =~= it.seq().take(it.index()).push(c));
    }
    assert(s@.take(s@.len() as int) =~= s@);
    v
}

// ---------------------------------------------------------------- order

/// Whether a text comes before another, by the first character in which they differ.
pub open spec fn text_lt(a: Seq<char>, b: Seq<char>) -> bool
    decreases a.len(),
{
    if b.len() == 0 {
        false
    } else if a.len() == 0 {
        true
    } else if a[0] != b[0] {
        a[0] < b[0]
    } else {
        text_lt(a.skip(1), b.skip(1))
    }
}

/// Of two different texts one comes before the other.
pub proof fn lemma_text_lt_total(a: Seq<char>, b: Seq<char>)
    ensures
        a != b ==> text_lt(a, b) || text_lt(b, a),
        !(text_lt(a, b) && text_lt(b, a)),
        !text_lt(a, a),
    decreases a.len(),
{
    if a.len() > 0 {
        lemma_text_lt_total(a.skip(1), a.skip(1));
        if b.len() > 0 && a[0] == b[0] {
            lemma_text_lt_total(a.skip(1), b.skip(1));
            if a.skip(1) == b.skip(1) {
                assert(a =~= seq![a[0]] + a.skip(1));
                assert(b =~= seq![b[0]] + b.skip(1));
            }
        }
    } else if b.len() == 0 {
        assert(a =~= b);
    }
}

/// The order of texts is transitive.
pub proof fn lemma_text_lt_transitive(a: Seq<char>, b: Seq<char>, c: Seq<char>)
    requires
        text_lt(a, b),
        text_lt(b, c),
    ensures
        text_lt(a, c),
    decreases a.len(),
{
    if a.len() > 0 && a[0] == b[0] && b[0] == c[0] {
        lemma_text_lt_transitive(a.skip(1), b.skip(1), c.skip(1));
    }
}

/// Whether a text comes before another.
pub fn text_before(a: &str, b: &str) -> (r: bool)
    ensures
        r == text_lt(a@, b@),
{
    let v = chars_of(a);
    let w = chars_of(b);
    let mut i: usize = 0;
    assert(v@.skip(0) =~= a@);
    assert(w@.skip(0) =~= b@);
    while i < v.len() && i < w.len()
        invariant
            i <= v@.len(),
            i <= w@.len(),
            text_lt(a@, b@) == text_lt(v@.skip(i as int), w@.skip(i as int)),
        decreases v@.len() - i,
    {
        assert(v@.skip(i as int)[0] == v@[i as int]);
        assert(w@.skip(i as int)[0] == w@[i as int]);
        if v[i] != w[i] {
            return v[i] < w[i];
        }
        assert(v@.skip(i as int).skip(1) =~= v@.skip(i + 1));
        assert(w@.skip(i as int).skip(1) =~= w@.skip(i + 1));
        i += 1;
    }
    i < w.len()
}

// ---------------------------------------------------------------- decimal numbers

pub open spec fn digit_char(d: int) -> char {
    (48 + d) as char
}

pub open spec fn is_digit(c: char) -> bool {
    '0' <= c && c <= '9'
}

/// The decimal digits of a number.
pub open spec fn decimal(n: nat) -> Seq<char>
    decreases n,
{
    if n < 10 {
        seq![digit_char(n as int)]
    } else {
        decimal(n / 10).push(digit_char((n % 10) as int))
    }
}

/// The decimal form of a number that may be negative.
pub open spec fn signed_decimal(n: int) -> Seq<char> {
    if n < 0 {
        seq!['-'] + decimal((-n) as nat)
    } else {
        decimal(n as nat)
    }
}

/// The number that a sequence of digits stands for.
pub open spec fn digits_value(s: Seq<char>) -> nat
    decreases s.len(),
{
    if s.len() == 0 {
        0
    } else {
        digits_value(s.drop_last()) * 10 + (s.last() as int - 48) as nat
    }
}

pub open spec fn all_digits(s: Seq<char>) -> bool {
    forall|i: int| 0 <= i < s.len() ==> is_digit(#[trigger] s[i])
}

/// The port number that a text stands for: an optional plus sign, then digits only, and a
/// value that a port can have.
pub open spec fn parsed_port(s: Seq<char>) -> Option<u16> {
    let d = if s.len() > 0 && s[0] == '+' {
        s.skip(1)
    } else {
        s
    };
    if d.len() > 0 && all_digits(d) && digits_value(d) <= 65535 {
        Some(digits_value(d) as u16)
    } else {
        None
    }
}

fn push_decimal(s: &mut String, n: u64)
    ensures
        final(s)@ == old(s)@ + decimal(n as nat),
    decreases n,
{
    let ghost before = s@;
    if n >= 10 {
        push_decimal(s, n / 10);
    }
    let digit: u8 = (n % 10) as u8;
    let c: char = (48 + digit) as char;
    s.push(c);
    assert(s@ =~= before + decimal(n as nat));
}

/// The decimal form of a number.
pub fn decimal_text(n: u64) -> (r: String)
    ensures
        r@ == decimal(n as nat),
{
    let mut r = String::new();
    push_decimal(&mut r, n);
    assert(r@ =~= decimal(n as nat));
    r
}

/// The decimal form of a number that may be negative.
pub fn signed_decimal_text(n: i64) -> (r: String)
    ensures
        r@ == signed_decimal(n as int),
{
    let mut r = String::new();
    if n < 0 {
        r.push('-');
        push_decimal(&mut r, (-(n as i128)) as u64);
    } else {
        push_decimal(&mut r, n as u64);
    }
    assert(r@ =~= signed_decimal(n as int));
    r
}

/// Read a port number.
pub fn parse_port(s: &str) -> (r: Option<u16>)
    ensures
        r == parsed_port(s@),
{
    let v = chars_of(s);
    let n: usize = v.len();
    let start: usize = if n > 0 && v[0] == '+' {
        1
    } else {
        0
    };
    let ghost d = v@.skip(start as int);
    proof {
        if start == 0 {
            assert(d =~= v@);
        }
    }
    if start == n {
        return None;
    }
    let mut i: usize = start;
    let mut value: u32 = 0;
    let mut too_large: bool = false;
    while i < n
        invariant
            n == v@.len(),
            v@ == s@,
            start <= i <= n,
            start == 1 ==> s@[0] == '+' && s@.len() > 0 && d == s@.skip(1),
            start == 0 ==> !(s@.len() > 0 && s@[0] == '+') && d == s@,
            start <= 1,
            d == v@.skip(start as int),
            all_digits(d.take(i - start)),
            too_large ==> digits_value(d.take(i - start)) > 65535,
            !too_large ==> value == digits_value(d.take(i - start)),
            value <= 65535,
        decreases n - i,
    {
        let c: char = v[i];
        let ghost k = i - start;
        assert(d[k] == c);
        if c < '0' || c > '9' {
            assert(!is_digit(d[k]));
            return None;
        }
        assert(d.take(k + 1).drop_last() =~= d.take(k));
        assert(d.take(k + 1).last() == c);
        assert forall|j: int| 0 <= j < d.take(k + 1).len() implies is_digit(
            #[trigger] d.take(k + 1)[j],
        ) by {
            if j < k {
                assert(d.take(k)[j] == d.take(k + 1)[j]);
            }
        }
        if !too_large {
            let digit: u32 = c as u32 - 48;
            let next: u32 = value * 10 + digit;
            if next > 65535 {
                too_large = true;
            } else {
                value = next;
            }
        }
        i += 1;
    }
    assert(d.take(n - start) =~= d);
    if too_large {
        None
    } else {
        Some(value as u16)
    }
}

// ---------------------------------------------------------------- host and port

/// Where the first colon at or behind `i` stands, or the end of the text.
pub open spec fn next_colon(s: Seq<char>, i: int) -> int
    decreases s.len() - i,
{
    if i >= s.len() {
        s.len() as int
    } else if s[i] == ':' {
        i
    } else {
        next_colon(s, i + 1)
    }
}

/// The part of a text in front of its first colon.
pub open spec fn host_part(s: Seq<char>) -> Seq<char> {
    s.take(next_colon(s, 0))
}

/// The part of a text between its first and its second colon, if it has a colon.
pub open spec fn port_part(s: Seq<char>) -> Option<Seq<char>> {
    let c = next_colon(s, 0);
    if c < s.len() {
        Some(s.subrange(c + 1, next_colon(s, c + 1)))
    } else {
        None
    }
}

/// The port that a `host:port` text names, if it names one.
pub open spec fn port_of_address(s: Seq<char>) -> Option<u16> {
    match port_part(s) {
        Some(p) => parsed_port(p),
        None => None,
    }
}

/// `host:port`.
pub open spec fn address_text(host: Seq<char>, port: u16) -> Seq<char> {
    host + seq![':'] + decimal(port as nat)
}

fn find_colon(v: &Vec<char>, from: usize) -> (r: usize)
    requires
        from <= v@.len(),
    ensures
        r == next_colon(v@, from as int),
        from <= r <= v@.len(),
{
    let mut i: usize = from;
    while i < v.len() && v[i] != ':'
        invariant
            from <= i <= v@.len(),
            next_colon(v@, from as int) == next_colon(v@, i as int),
        decreases v@.len() - i,
    {
        i += 1;
    }
    i
}

/// The part of a `host:port` text in front of the first colon.
pub fn host_of(s: &str) -> (r: String)
    ensures
        r@ == host_part(s@),
{
    let v = chars_of(s);
    let c: usize = find_colon(&v, 0);
    assert(s@.subrange(0, c as int) =~= host_part(s@));
    s.substring_char(0, c).to_owned()
}

/// The port that a `host:port` text names.
pub fn port_of(s: &str) -> (r: Option<u16>)
    ensures
        r == port_of_address(s@),
{
    let v = chars_of(s);
    let c: usize = find_colon(&v, 0);
    if c >= v.len() {
        return None;
    }
    let e: usize = find_colon(&v, c + 1);
    parse_port(s.substring_char(c + 1, e))
}

/// Write `host:port`.
pub fn address_of(host: &str, port: u16) -> (r: String)
    ensures
        r@ == address_text(host@, port),
{
    let colon = ":";
    let p = decimal_text(port as u64);
    proof {
        reveal_strlit(":");
        assert(colon@ =~= seq![':']);
    }
    join3(host, colon, p.as_str())
}

// ---------------------------------------------------------------- trimming

/// A text without the characters at its start that `f` picks.
pub open spec fn trim_start_where(s: Seq<char>, f: spec_fn(char) -> bool) -> Seq<char>
    decreases s.len(),
{
    if s.len() > 0 && f(s[0]) {
        trim_start_where(s.skip(1), f)
    } else {
        s
    }
}

/// A text without the characters at its end that `f` picks.
pub open spec fn trim_end_where(s: Seq<char>, f: spec_fn(char) -> bool) -> Seq<char>
    decreases s.len(),
{
    if s.len() > 0 && f(s.last()) {
        trim_end_where(s.drop_last(), f)
    } else {
        s
    }
}

/// A text without the white space around it.
pub open spec fn trimmed(s: Seq<char>) -> Seq<char> {
    trim_end_where(trim_start_where(s, |c: char| is_white_space(c)), |c: char| is_white_space(c))
}

/// A text without the underscores around it.
pub open spec fn without_outer_underscores(s: Seq<char>) -> Seq<char> {
    trim_end_where(trim_start_where(s, |c: char| c == '_'), |c: char| c == '_')
}

/// The characters of a text without the white space around it.
pub fn trim_white_space(v: &Vec<char>) -> (r: Vec<char>)
    ensures
        r@ == trimmed(v@),
{
    let ghost f = |c: char| is_white_space(c);
    let mut start: usize = 0;
    assert(v@.skip(0) =~= v@);
    while start < v.len() && v[start].is_whitespace()
        invariant
            f == |c: char| is_white_space(c),
            start <= v@.len(),
            trim_start_where(v@, f) == trim_start_where(v@.skip(start as int), f),
        decreases v@.len() - start,
    {
        assert(v@.skip(start as int).skip(1) =~= v@.skip(start + 1));
        start += 1;
    }
    let ghost tail = v@.skip(start as int);
    let mut end: usize = v.len();
    assert(v@.subrange(start as int, end as int) =~= tail);
    while end > start && v[end - 1].is_whitespace()
        invariant
            f == |c: char| is_white_space(c),
            start <= end <= v@.len(),
            trim_end_where(tail, f) == trim_end_where(v@.subrange(start as int, end as int), f),
        decreases end,
    {
        assert(v@.subrange(start as int, end as int).drop_last() =~= v@.subrange(
            start as int,
            end - 1,
        ));
        end -= 1;
    }
    copy_range(v, start, end)
}

/// The characters of a text without the underscores around it.
pub fn trim_underscores(v: &Vec<char>) -> (r: Vec<char>)
    ensures
        r@ == without_outer_underscores(v@),
{
    let ghost f = |c: char| c == '_';
    let mut start: usize = 0;
    assert(v@.skip(0) =~= v@);
    while start < v.len() && v[start] == '_'
        invariant
            f == |c: char| c == '_',
            start <= v@.len(),
            trim_start_where(v@, f) == trim_start_where(v@.skip(start as int), f),
        decreases v@.len() - start,
    {
        assert(v@.skip(start as int).skip(1) =~= v@.skip(start + 1));
        start += 1;
    }
    let ghost tail = v@.skip(start as int);
    let mut end: usize = v.len();
    assert(v@.subrange(start as int, end as int) =~= tail);
    while end > start && v[end - 1] == '_'
        invariant
            f == |c: char| c == '_',
            start <= end <= v@.len(),
            trim_end_where(tail, f) == trim_end_where(v@.subrange(start as int, end as int), f),
        decreases end,
    {
        assert(v@.subrange(start as int, end as int).drop_last() =~= v@.subrange(
            start as int,
            end - 1,
        ));
        end -= 1;
    }
    copy_range(v, start, end)
}

fn copy_range(v: &Vec<char>, from: usize, to: usize) -> (r: Vec<char>)
    requires
        from <= to <= v@.len(),
    ensures
        r@ == v@.subrange(from as int, to as int),
{
    let mut r: Vec<char> = Vec::new();
    let mut i: usize = from;
    while i < to
        invariant
            from <= i <= to <= v@.len(),
            r@ == v@.subrange(from as int, i as int),
        decreases to - i,
    {
        r.push(v[i]);
        i += 1;
        assert(r@ =~= v@.subrange(from as int, i as int));
    }
    r
}

/// The text with these characters.
pub fn text_of(v: &Vec<char>) -> (r: String)
    ensures
        r@ == v@,
{
    let mut r = String::new();
    let mut i: usize = 0;
    while i < v.len()
        invariant
            i <= v@.len(),
            r@ == v@.take(i as int),
        decreases v@.len() - i,
    {
        r.push(v[i]);
        i += 1;
        assert(r@ =~= v@.take(i as int));
    }
    assert(r@ =~= v@);
    r
}

} // verus!
