//! Character-level text helpers shared by the validation rules: what
//! counts as a digit, as whitespace, trimming, equality and the few
//! searches the rules need. Everything is stated over `Seq<char>`, the
//! view of a `str`/`String`.

use vstd::prelude::*;
use vstd::string::*;

verus! {

/// An ASCII decimal digit.
pub open spec fn er_siffer(c: char) -> bool {
    '0' <= c && c <= '9'
}

/// An ASCII letter or digit.
pub open spec fn er_alfanumerisk(c: char) -> bool {
    ('0' <= c && c <= '9') || ('a' <= c && c <= 'z') || ('A' <= c && c <= 'Z')
}

/// Unicode White_Space, the set `char::is_whitespace` tests for.
pub open spec fn er_mellomrom(c: char) -> bool {
    ||| ('\u{9}' <= c && c <= '\u{d}')
    ||| c == ' '
    ||| c == '\u{85}'
    ||| c == '\u{a0}'
    ||| c == '\u{1680}'
    ||| ('\u{2000}' <= c && c <= '\u{200a}')
    ||| c == '\u{2028}'
    ||| c == '\u{2029}'
    ||| c == '\u{202f}'
    ||| c == '\u{205f}'
    ||| c == '\u{3000}'
}

/// Every character is an ASCII digit (true of the empty sequence).
pub open spec fn alle_siffer(s: Seq<char>) -> bool {
    forall|i: int| 0 <= i < s.len() ==> #[trigger] er_siffer(s[i])
}

/// Leading whitespace removed.
pub open spec fn uten_ledende(s: Seq<char>) -> Seq<char>
    decreases s.len(),
{
    if s.len() > 0 && er_mellomrom(s[0]) {
        uten_ledende(s.drop_first())
    } else {
        s
    }
}

/// Trailing whitespace removed.
pub open spec fn uten_etterfolgende(s: Seq<char>) -> Seq<char>
    decreases s.len(),
{
    if s.len() > 0 && er_mellomrom(s.last()) {
        uten_etterfolgende(s.drop_last())
    } else {
        s
    }
}

/// `str::trim`: whitespace removed from both ends.
pub open spec fn trimmet(s: Seq<char>) -> Seq<char> {
    uten_etterfolgende(uten_ledende(s))
}

/// The sequence contains the character.
pub open spec fn har_tegn(s: Seq<char>, c: char) -> bool {
    exists|i: int| 0 <= i < s.len() && s[i] == c
}

/// What `str::to_lowercase` returns for a string (the Unicode lowercase
/// mapping, which takes the Unicode tables to state).
pub uninterp spec fn smaa_bokstaver(s: Seq<char>) -> Seq<char>;

/// Calls `str::to_lowercase`; the result is named, not restated.
#[verifier::external_body]
pub fn til_smaa(s: &str) -> (r: String)
    ensures
        r@ == smaa_bokstaver(s@),
{
    s.to_lowercase()
}

/// Builds a `String` from its characters with `String::from_iter`.
#[verifier::external_body]
pub fn streng_av(tegn: &Vec<char>) -> (r: String)
    ensures
        r@ == tegn@,
{
    String::from_iter(tegn.iter())
}

/// An optional text as plain characters.
pub open spec fn opt_syn(o: Option<String>) -> Option<Seq<char>> {
    match o {
        Some(s) => Some(s@),
        None => None,
    }
}

/// `s` cut to at most `max` characters.
pub open spec fn forkortet(s: Seq<char>, max: int) -> Seq<char> {
    if s.len() <= max {
        s
    } else {
        s.take(max)
    }
}

/// A copy of an optional text.
pub fn kopi_valg(o: &Option<String>) -> (r: Option<String>)
    ensures
        r == *o,
{
    match o {
        Some(s) => Some(s.clone()),
        None => None,
    }
}

/// The characters of a string slice, in order.
pub fn tegn_i(s: &str) -> (r: Vec<char>)
    ensures
        r@ == s@,
{
    let n = s.unicode_len();
    let mut v: Vec<char> = Vec::new();
    let mut i: usize = 0;
    while i < n
        invariant
            n == s@.len(),
            i <= n,
            v@ == s@.subrange(0, i as int),
        decreases n - i,
    {
        let c = s.get_char(i);
        v.push(c);
        i = i + 1;
        assert(v@ =~= s@.subrange(0, i as int));
    }
    assert(v@ =~= s@);
    v
}

/// Character-wise equality of two string slices.
pub fn like(a: &str, b: &str) -> (r: bool)
    ensures
        r == (a@ == b@),
{
    let n = a.unicode_len();
    let m = b.unicode_len();
    if n != m {
        return false;
    }
    let mut i: usize = 0;
    while i < n
        invariant
            n == a@.len(),
            m == b@.len(),
            n == m,
            i <= n,
            forall|k: int| 0 <= k < i ==> a@[k] == b@[k],
        decreases n - i,
    {
        if a.get_char(i) != b.get_char(i) {
            return false;
        }
        i = i + 1;
    }
    assert(a@ =~= b@);
    true
}

/// Whether a character is whitespace in the sense of `er_mellomrom`.
pub fn mellomrom(c: char) -> (r: bool)
    ensures
        r == er_mellomrom(c),
{
    ('\u{9}' <= c && c <= '\u{d}') || c == ' ' || c == '\u{85}' || c == '\u{a0}' || c
        == '\u{1680}' || ('\u{2000}' <= c && c <= '\u{200a}') || c == '\u{2028}' || c
        == '\u{2029}' || c == '\u{202f}' || c == '\u{205f}' || c == '\u{3000}'
}

proof fn lemma_uten_ledende_prefiks(s: Seq<char>, i: int)
    requires
        0 <= i <= s.len(),
        forall|k: int| 0 <= k < i ==> er_mellomrom(#[trigger] s[k]),
    ensures
        uten_ledende(s) == uten_ledende(s.subrange(i, s.len() as int)),
    decreases i,
{
    if i > 0 {
        assert(s.drop_first().subrange(i - 1, s.drop_first().len() as int) =~= s.subrange(
            i,
            s.len() as int,
        ));
        lemma_uten_ledende_prefiks(s.drop_first(), i - 1);
    } else {
        assert(s.subrange(0, s.len() as int) =~= s);
    }
}

proof fn lemma_uten_etterfolgende_suffiks(s: Seq<char>, j: int)
    requires
        0 <= j <= s.len(),
        forall|k: int| j <= k < s.len() ==> er_mellomrom(#[trigger] s[k]),
    ensures
        uten_etterfolgende(s) == uten_etterfolgende(s.subrange(0, j)),
    decreases s.len() - j,
{
    if j < s.len() {
        assert(s.drop_last().subrange(0, j) =~= s.subrange(0, j));
        lemma_uten_etterfolgende_suffiks(s.drop_last(), j);
    } else {
        assert(s.subrange(0, j) =~= s);
    }
}

/// Start and end of `trimmet(s@)` inside `s`.
pub fn trim_grenser(s: &Vec<char>) -> (r: (usize, usize))
    ensures
        r.0 <= r.1 <= s@.len(),
        trimmet(s@) == s@.subrange(r.0 as int, r.1 as int),
{
    let n = s.len();
    let mut i: usize = 0;
    while i < n && mellomrom(s[i])
        invariant
            n == s@.len(),
            i <= n,
            forall|k: int| 0 <= k < i ==> er_mellomrom(#[trigger] s@[k]),
        decreases n - i,
    {
        i = i + 1;
    }
    proof {
        lemma_uten_ledende_prefiks(s@, i as int);
    }
    let ghost t = s@.subrange(i as int, n as int);
    assert(uten_ledende(t) == t);
    let mut j: usize = n;
    while j > i && mellomrom(s[j - 1])
        invariant
            n == s@.len(),
            i <= j <= n,
            forall|k: int| j <= k < n ==> er_mellomrom(#[trigger] s@[k]),
        decreases j,
    {
        j = j - 1;
    }
    proof {
        assert forall|k: int| j - i <= k < t.len() implies er_mellomrom(#[trigger] t[k]) by {
            assert(t[k] == s@[k + i]);
        }
        lemma_uten_etterfolgende_suffiks(t, j - i);
        assert(t.subrange(0, j - i) =~= s@.subrange(i as int, j as int));
        let u = s@.subrange(i as int, j as int);
        if u.len() > 0 {
            assert(u.last() == s@[j - 1]);
        }
        assert(uten_etterfolgende(u) == u);
    }
    (i, j)
}

/// `str::trim`, as characters.
pub fn trim_tegn(s: &str) -> (r: Vec<char>)
    ensures
        r@ == trimmet(s@),
{
    let v = tegn_i(s);
    let (i, j) = trim_grenser(&v);
    let mut r: Vec<char> = Vec::new();
    let mut k: usize = i;
    while k < j
        invariant
            i <= k <= j <= v@.len(),
            r@ == v@.subrange(i as int, k as int),
        decreases j - k,
    {
        r.push(v[k]);
        k = k + 1;
        assert(r@ =~= v@.subrange(i as int, k as int));
    }
    r
}

/// The characters `v[i..j]`.
pub fn del_av(v: &Vec<char>, i: usize, j: usize) -> (r: Vec<char>)
    requires
        i <= j <= v@.len(),
    ensures
        r@ == v@.subrange(i as int, j as int),
{
    let mut r: Vec<char> = Vec::new();
    let mut k: usize = i;
    while k < j
        invariant
            i <= k <= j <= v@.len(),
            r@ == v@.subrange(i as int, k as int),
        decreases j - k,
    {
        r.push(v[k]);
        k = k + 1;
        assert(r@ =~= v@.subrange(i as int, k as int));
    }
    r
}

/// `trim` on characters.
pub fn trim_v(v: &Vec<char>) -> (r: Vec<char>)
    ensures
        r@ == trimmet(v@),
{
    let (i, j) = trim_grenser(v);
    del_av(v, i, j)
}

/// `str::trim`, as a `String`.
pub fn trim(s: &str) -> (r: String)
    ensures
        r@ == trimmet(s@),
{
    let v = trim_tegn(s);
    streng_av(&v)
}

/// The trimmed text is empty (`s.trim().is_empty()`).
pub fn er_blank(s: &str) -> (r: bool)
    ensures
        r == (trimmet(s@).len() == 0),
{
    let v = trim_tegn(s);
    v.len() == 0
}

/// Every character of a character vector is an ASCII digit.
pub fn bare_siffer_v(v: &Vec<char>) -> (r: bool)
    ensures
        r == alle_siffer(v@),
{
    let mut i: usize = 0;
    while i < v.len()
        invariant
            i <= v@.len(),
            forall|k: int| 0 <= k < i ==> #[trigger] er_siffer(v@[k]),
        decreases v@.len() - i,
    {
        if !('0' <= v[i] && v[i] <= '9') {
            assert(!er_siffer(v@[i as int]));
            return false;
        }
        i = i + 1;
    }
    true
}

/// Every character is an ASCII digit.
pub fn bare_siffer(s: &str) -> (r: bool)
    ensures
        r == alle_siffer(s@),
{
    let v = tegn_i(s);
    bare_siffer_v(&v)
}

/// The text contains the character.
pub fn inneholder(s: &str, c: char) -> (r: bool)
    ensures
        r == har_tegn(s@, c),
{
    let n = s.unicode_len();
    let mut i: usize = 0;
    while i < n
        invariant
            n == s@.len(),
            i <= n,
            forall|k: int| 0 <= k < i ==> s@[k] != c,
        decreases n - i,
    {
        if s.get_char(i) == c {
            return true;
        }
        i = i + 1;
    }
    false
}

/// The text begins with the character.
pub fn starter_med(s: &str, c: char) -> (r: bool)
    ensures
        r == (s@.len() > 0 && s@[0] == c),
{
    s.unicode_len() > 0 && s.get_char(0) == c
}

/// The character of a decimal digit 0–9.
pub open spec fn siffertegn(d: int) -> char {
    if d == 0 { '0' } else if d == 1 { '1' } else if d == 2 { '2' } else if d == 3 { '3' }
    else if d == 4 { '4' } else if d == 5 { '5' } else if d == 6 { '6' } else if d == 7 { '7' }
    else if d == 8 { '8' } else { '9' }
}

/// Decimal digits of a natural number, most significant first, no
/// leading zeros ("0" for zero).
pub open spec fn sifre(n: nat) -> Seq<char>
    decreases n,
{
    if n < 10 {
        seq![siffertegn(n as int)]
    } else {
        sifre(n / 10) + seq![siffertegn((n % 10) as int)]
    }
}

/// The decimal text of an integer, with a leading '-' when negative.
pub open spec fn desimal(n: int) -> Seq<char> {
    if n < 0 {
        seq!['-'] + sifre((-n) as nat)
    } else {
        sifre(n as nat)
    }
}

pub fn siffer_av(d: u64) -> (r: char)
    requires
        d < 10,
    ensures
        r == siffertegn(d as int),
{
    if d == 0 { '0' } else if d == 1 { '1' } else if d == 2 { '2' } else if d == 3 { '3' }
    else if d == 4 { '4' } else if d == 5 { '5' } else if d == 6 { '6' } else if d == 7 { '7' }
    else if d == 8 { '8' } else { '9' }
}

fn skriv_sifre(n: u64, ut: &mut Vec<char>)
    ensures
        final(ut)@ == old(ut)@ + sifre(n as nat),
    decreases n,
{
    if n >= 10 {
        skriv_sifre(n / 10, ut);
    }
    let c = siffer_av(n % 10);
    ut.push(c);
    proof {
        if n < 10 {
            assert(n % 10 == n);
        }
    }
    assert(final(ut)@ =~= old(ut)@ + sifre(n as nat)) by {
        if n >= 10 {
            assert(sifre(n as nat) == sifre((n / 10) as nat) + seq![siffertegn((n % 10) as int)]);
        }
    }
}

/// The decimal text of an integer (`i64::to_string`).
pub fn heltall_tekst(n: i64) -> (r: String)
    ensures
        r@ == desimal(n as int),
{
    let mut v: Vec<char> = Vec::new();
    if n < 0 {
        v.push('-');
        let m: u64 = (-(n as i128)) as u64;
        skriv_sifre(m, &mut v);
    } else {
        skriv_sifre(n as u64, &mut v);
    }
    assert(v@ =~= desimal(n as int));
    streng_av(&v)
}

/// The decimal text of a count.
pub fn antall_tekst(n: usize) -> (r: String)
    ensures
        r@ == desimal(n as int),
{
    let mut v: Vec<char> = Vec::new();
    skriv_sifre(n as u64, &mut v);
    assert(v@ =~= desimal(n as int));
    streng_av(&v)
}

/// Lexicographic order from position `i` on, by code point: what `Ord`
/// on `str` gives (UTF-8 byte order and code point order agree).
pub open spec fn leks_fra(a: Seq<char>, b: Seq<char>, i: int) -> bool
    decreases a.len() - i,
{
    if i < 0 || i >= a.len() {
        0 <= i < b.len()
    } else if i >= b.len() {
        false
    } else if a[i] < b[i] {
        true
    } else if a[i] == b[i] {
        leks_fra(a, b, i + 1)
    } else {
        false
    }
}

/// `a < b` in the lexicographic order of strings.
pub open spec fn leks_mindre(a: Seq<char>, b: Seq<char>) -> bool {
    leks_fra(a, b, 0)
}

pub proof fn lemma_leks_irrefleksiv(a: Seq<char>, i: int)
    requires
        0 <= i,
    ensures
        !leks_fra(a, a, i),
    decreases a.len() - i,
{
    if i < a.len() {
        lemma_leks_irrefleksiv(a, i + 1);
    }
}

pub proof fn lemma_leks_transitiv(a: Seq<char>, b: Seq<char>, c: Seq<char>, i: int)
    requires
        0 <= i,
        leks_fra(a, b, i),
        leks_fra(b, c, i),
    ensures
        leks_fra(a, c, i),
    decreases a.len() - i,
{
    if i < a.len() && i < b.len() && i < c.len() && a[i] == b[i] && b[i] == c[i] {
        lemma_leks_transitiv(a, b, c, i + 1);
    }
}

pub proof fn lemma_leks_total(a: Seq<char>, b: Seq<char>, i: int)
    requires
        0 <= i <= a.len(),
        i <= b.len(),
        !leks_fra(a, b, i),
        !leks_fra(b, a, i),
    ensures
        a.len() == b.len(),
        forall|k: int| i <= k < a.len() ==> a[k] == b[k],
    decreases a.len() - i,
{
    if i < a.len() && i < b.len() {
        lemma_leks_total(a, b, i + 1);
    }
}

/// `a < b` in the lexicographic order of strings.
pub fn er_leks_mindre(a: &str, b: &str) -> (r: bool)
    ensures
        r == leks_mindre(a@, b@),
{
    let n = a.unicode_len();
    let m = b.unicode_len();
    let mut i: usize = 0;
    while i < n && i < m && a.get_char(i) == b.get_char(i)
        invariant
            n == a@.len(),
            m == b@.len(),
            i <= n,
            i <= m,
            leks_fra(a@, b@, 0) == leks_fra(a@, b@, i as int),
        decreases n - i,
    {
        i = i + 1;
    }
    if i < n && i < m {
        a.get_char(i) < b.get_char(i)
    } else {
        i < m && i >= n
    }
}

/// Characters of two texts joined by a separator character.
pub fn sammen(a: &str, skille: char, b: &str) -> (r: String)
    ensures
        r@ == a@ + seq![skille] + b@,
{
    let mut v = tegn_i(a);
    v.push(skille);
    let w = tegn_i(b);
    let mut i: usize = 0;
    let ghost start = v@;
    while i < w.len()
        invariant
            i <= w@.len(),
            v@ == start + w@.subrange(0, i as int),
        decreases w@.len() - i,
    {
        v.push(w[i]);
        i = i + 1;
        assert(v@ =~= start + w@.subrange(0, i as int));
    }
    assert(w@.subrange(0, w@.len() as int) =~= w@);
    assert(v@ =~= a@ + seq![skille] + b@);
    streng_av(&v)
}

/// `s` left-padded with '0' to at least `w` characters.
pub open spec fn fylt(s: Seq<char>, w: int) -> Seq<char>
    decreases w - s.len(),
{
    if s.len() >= w {
        s
    } else {
        fylt(seq!['0'] + s, w)
    }
}

/// Left-pads with '0' to at least `w` characters.
pub fn fyll(s: String, w: usize) -> (r: String)
    ensures
        r@ == fylt(s@, w as int),
{
    let mut v = tegn_i(s.as_str());
    let ghost start = v@;
    let n = v.len();
    if n >= w {
        return s;
    }
    let mut nuller: Vec<char> = Vec::new();
    let mut k: usize = 0;
    while k < w - n
        invariant
            n < w,
            k <= w - n,
            nuller@ == Seq::new(k as nat, |_i: int| '0'),
        decreases w - n - k,
    {
        nuller.push('0');
        k = k + 1;
        assert(nuller@ =~= Seq::new(k as nat, |_i: int| '0'));
    }
    let mut i: usize = 0;
    while i < n
        invariant
            n == start.len(),
            i <= n,
            v@ == start,
            nuller@ == Seq::new((w - n) as nat, |_i: int| '0') + start.take(i as int),
        decreases n - i,
    {
        nuller.push(v[i]);
        i = i + 1;
        assert(nuller@ =~= Seq::new((w - n) as nat, |_i: int| '0') + start.take(i as int));
    }
    assert(start.take(n as int) =~= start);
    proof {
        lemma_fylt(start, w as int, (w - n) as int);
    }
    streng_av(&nuller)
}

proof fn lemma_fylt(s: Seq<char>, w: int, k: int)
    requires
        0 <= k,
        s.len() + k == w,
    ensures
        fylt(s, w) == Seq::new(k as nat, |_i: int| '0') + s,
    decreases k,
{
    if k == 0 {
        assert(Seq::new(0nat, |_i: int| '0') + s =~= s);
    } else {
        lemma_fylt(seq!['0'] + s, w, k - 1);
        assert(Seq::new((k - 1) as nat, |_i: int| '0') + (seq!['0'] + s) =~= Seq::new(k as nat, |_i: int| '0') + s);
    }
}

/// The texts of a vector, as plain characters.
pub open spec fn tekster_av(v: Seq<String>) -> Seq<Seq<char>> {
    v.map_values(|x: String| x@)
}

/// Parts joined with a separator between them (`[..].join(sep)`).
pub open spec fn sammenfoyd(deler: Seq<Seq<char>>, sep: Seq<char>) -> Seq<char>
    decreases deler.len(),
{
    if deler.len() == 0 {
        Seq::empty()
    } else if deler.len() == 1 {
        deler[0]
    } else {
        sammenfoyd(deler.drop_last(), sep) + sep + deler.last()
    }
}

/// `deler.join(sep)`.
pub fn foy_sammen(deler: &Vec<String>, sep: &str) -> (r: String)
    ensures
        r@ == sammenfoyd(tekster_av(deler@), sep@),
{
    let mut s = String::new();
    let mut i: usize = 0;
    while i < deler.len()
        invariant
            i <= deler@.len(),
            s@ == sammenfoyd(tekster_av(deler@).take(i as int), sep@),
        decreases deler@.len() - i,
    {
        let ghost t = tekster_av(deler@).take(i + 1);
        assert(t.drop_last() =~= tekster_av(deler@).take(i as int));
        assert(t.last() == deler@[i as int]@);
        if i > 0 {
            s.append(sep);
        } else {
            assert(t.len() == 1);
            assert(s@ =~= Seq::<char>::empty());
        }
        s.append(deler[i].as_str());
        i = i + 1;
        assert(s@ =~= sammenfoyd(tekster_av(deler@).take(i as int), sep@));
    }
    assert(tekster_av(deler@).take(deler@.len() as int) =~= tekster_av(deler@));
    s
}

/// `p` occurs in `s`.
pub open spec fn har_delstreng(s: Seq<char>, p: Seq<char>) -> bool {
    exists|i: int| 0 <= i && i + p.len() <= s.len() && #[trigger] s.subrange(i, i + p.len()) == p
}

/// Whether `p` occurs in `s` (`str::contains`).
pub fn inneholder_tekst(s: &str, p: &str) -> (r: bool)
    ensures
        r == har_delstreng(s@, p@),
{
    let v = tegn_i(s);
    let w = tegn_i(p);
    let n = v.len();
    let m = w.len();
    if m > n {
        assert(!har_delstreng(s@, p@));
        return false;
    }
    let mut i: usize = 0;
    while i <= n - m
        invariant
            m <= n,
            v@ == s@,
            w@ == p@,
            n == v@.len(),
            m == w@.len(),
            i <= n - m + 1,
            forall|k: int| 0 <= k < i ==> #[trigger] s@.subrange(k, k + m) != p@,
        decreases n - m + 1 - i,
    {
        let mut j: usize = 0;
        while j < m && v[i + j] == w[j]
            invariant
                i + m <= n,
                v@ == s@,
                w@ == p@,
                n == v@.len(),
                m == w@.len(),
                j <= m,
                forall|k: int| 0 <= k < j ==> v@[i + k] == w@[k],
            decreases m - j,
        {
            j = j + 1;
        }
        if j == m {
            assert(s@.subrange(i as int, i + m) =~= p@);
            return true;
        }
        assert(s@.subrange(i as int, i + m) != p@) by {
            assert(s@.subrange(i as int, i + m)[j as int] != p@[j as int]);
        }
        i = i + 1;
    }
    assert(!har_delstreng(s@, p@)) by {
        if har_delstreng(s@, p@) {
            let k = choose|k: int| 0 <= k && k + p@.len() <= s@.len() && #[trigger] s@.subrange(k, k + p@.len()) == p@;
            assert(s@.subrange(k, k + m) != p@);
        }
    }
    false
}

/// The voucher label "år-nummer" used in lists and reports.
pub open spec fn bilagsetikett(ar: int, nummer: int) -> Seq<char> {
    desimal(ar) + seq!['-'] + desimal(nummer)
}

/// The voucher label "år-nummer".
pub fn etikett(ar: i32, nummer: i64) -> (r: String)
    ensures
        r@ == bilagsetikett(ar as int, nummer as int),
{
    let a = heltall_tekst(ar as i64);
    let b = heltall_tekst(nummer);
    sammen(a.as_str(), '-', b.as_str())
}

} // verus!
