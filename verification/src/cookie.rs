//! HTTP cookies: building `Set-Cookie` values, collecting them in a jar, and
//! reading the pairs of a `Cookie` request header.
use vstd::prelude::*;
use crate::search_filter::opt_view;
use crate::text::{
    dec_nat, is_ws, leading_ws, trailing_ws, from_chars, push_str, slice_chars, string_of, to_chars,
    trim_chars, trim_seq, str_eq,
};

verus! {

/// The `SameSite` attribute of a cookie.
#[derive(Debug, Clone, Copy, PartialEq, Eq, Structural)]
pub enum SameSite {
    Strict,
    Lax,
    Unrestricted,
}

/// How a `SameSite` attribute is written.
pub open spec fn same_site_name(s: SameSite) -> Seq<char> {
    match s {
        SameSite::Strict => "Strict"@,
        SameSite::Lax => "Lax"@,
        SameSite::Unrestricted => "None"@,
    }
}

impl SameSite {
    /// How this attribute is written in a `Set-Cookie` value.
    pub fn as_str(&self) -> (r: &'static str)
        ensures
            r@ == same_site_name(*self),
    {
        match self {
            SameSite::Strict => "Strict",
            SameSite::Lax => "Lax",
            SameSite::Unrestricted => "None",
        }
    }
}

/// The RFC 2822 rendering of an instant, given in seconds since the Unix
/// epoch, at a UTC offset given in seconds, as the `time` crate writes it;
/// `None` where the crate refuses the instant or the offset.
pub uninterp spec fn rfc2822_at(unix_seconds: int, offset_seconds: int) -> Option<Seq<char>>;

/// Formats an instant at an offset with `time::OffsetDateTime::format` and
/// the `Rfc2822` description, after `OffsetDateTime::from_unix_timestamp`,
/// `UtcOffset::from_whole_seconds` and `OffsetDateTime::checked_to_offset`
/// put the instant in that offset; a refusal of any of them gives `None`. The
/// contract only names the result: the text is whatever the crate writes.
#[verifier::external_body]
fn format_rfc2822(unix_seconds: i64, offset_seconds: i32) -> (r: Option<String>)
    ensures
        opt_view(r) == rfc2822_at(unix_seconds as int, offset_seconds as int),
{
    match (
        time::OffsetDateTime::from_unix_timestamp(unix_seconds),
        time::UtcOffset::from_whole_seconds(offset_seconds),
    ) {
        (Ok(t), Ok(o)) => match t.checked_to_offset(o) {
            Some(t) => t.format(&time::format_description::well_known::Rfc2822).ok(),
            None => None,
        },
        _ => None,
    }
}

/// A byte that `http::HeaderValue` accepts: visible ASCII, space, tab, or any
/// byte of a multi-byte character.
pub open spec fn header_byte_ok(b: u8) -> bool {
    (b >= 32 && b != 127) || b == 9
}

/// Every byte of the text is accepted in a header value.
pub open spec fn header_value_valid(s: Seq<char>) -> bool {
    let bytes = vstd::utf8::encode_utf8(s);
    forall|i: int| 0 <= i < bytes.len() ==> header_byte_ok(#[trigger] bytes[i])
}

/// Whether `http::HeaderValue::from_str` (re-exported by `axum`) accepts the
/// text: its source accepts exactly the texts whose bytes are all tab, or at
/// least 32 and other than 127.
#[verifier::external_body]
pub(crate) fn header_value_ok(s: &str) -> (r: bool)
    ensures
        r == header_value_valid(s@),
{
    axum::http::HeaderValue::from_str(s).is_ok()
}

/// The abstract content of a cookie.
pub struct CookieView {
    pub name: Seq<char>,
    pub value: Seq<char>,
    pub domain: Option<Seq<char>>,
    pub path: Option<Seq<char>>,
    pub max_age: Option<nat>,
    pub expires: Option<(int, int)>,
    pub secure: bool,
    pub http_only: bool,
    pub same_site: Option<SameSite>,
}

/// The text an optional attribute adds, its prefix and its value, or nothing.
pub open spec fn attr(prefix: Seq<char>, v: Option<Seq<char>>) -> Seq<char> {
    match v {
        Some(x) => prefix + x,
        None => Seq::empty(),
    }
}

/// The `Set-Cookie` value of a cookie.
pub open spec fn cookie_string(c: CookieView) -> Seq<char> {
    c.name + "="@ + c.value + attr("; Domain="@, c.domain) + attr("; Path="@, c.path) + attr(
        "; Max-Age="@,
        match c.max_age {
            Some(s) => Some(dec_nat(s)),
            None => None,
        },
    ) + attr(
        "; Expires="@,
        match c.expires {
            Some(t) => rfc2822_at(t.0, t.1),
            None => None,
        },
    ) + (if c.secure {
        "; Secure"@
    } else {
        Seq::empty()
    }) + (if c.http_only {
        "; HttpOnly"@
    } else {
        Seq::empty()
    }) + attr(
        "; SameSite="@,
        match c.same_site {
            Some(s) => Some(same_site_name(s)),
            None => None,
        },
    )
}

/// The cookie with only a name and a value.
pub open spec fn plain_cookie(name: Seq<char>, value: Seq<char>) -> CookieView {
    CookieView {
        name,
        value,
        domain: None,
        path: None,
        max_age: None,
        expires: None,
        secure: false,
        http_only: false,
        same_site: None,
    }
}

fn push_attr(s: &mut String, prefix: &str, v: Option<&str>)
    ensures
        final(s)@ == old(s)@ + attr(
            prefix@,
            match v {
                Some(x) => Some(x@),
                None => None,
            },
        ),
{
    match v {
        Some(x) => {
            push_str(s, prefix);
            push_str(s, x);
            assert(final(s)@ =~= old(s)@ + (prefix@ + x@));
        },
        None => {
            assert(old(s)@ + Seq::<char>::empty() =~= old(s)@);
        },
    }
}

fn push_flag(s: &mut String, text: &str, on: bool)
    ensures
        final(s)@ == old(s)@ + (if on {
            text@
        } else {
            Seq::empty()
        }),
{
    if on {
        push_str(s, text);
    } else {
        assert(old(s)@ + Seq::<char>::empty() =~= old(s)@);
    }
}

/// A cookie to set on a response.
#[derive(Debug, Clone)]
pub struct Cookie {
    name: String,
    value: String,
    domain: Option<String>,
    path: Option<String>,
    max_age: Option<u64>,
    expires: Option<(i64, i32)>,
    secure: bool,
    http_only: bool,
    same_site: Option<SameSite>,
}

impl View for Cookie {
    type V = CookieView;

    closed spec fn view(&self) -> CookieView {
        CookieView {
            name: self.name@,
            value: self.value@,
            domain: opt_view(self.domain),
            path: opt_view(self.path),
            max_age: match self.max_age {
                Some(s) => Some(s as nat),
                None => None,
            },
            expires: match self.expires {
                Some(t) => Some((t.0 as int, t.1 as int)),
                None => None,
            },
            secure: self.secure,
            http_only: self.http_only,
            same_site: self.same_site,
        }
    }
}

impl Cookie {
    /// A cookie with a name and a value and no attributes.
    pub fn new(name: &str, value: &str) -> (c: Self)
        ensures
            c@ == plain_cookie(name@, value@),
    {
        Cookie {
            name: string_of(name),
            value: string_of(value),
            domain: None,
            path: None,
            max_age: None,
            expires: None,
            secure: false,
            http_only: false,
            same_site: None,
        }
    }

    /// A session cookie: HTTP-only, secure, `SameSite=Lax`.
    pub fn session(name: &str, value: &str) -> (c: Self)
        ensures
            c@ == (CookieView {
                secure: true,
                http_only: true,
                same_site: Some(SameSite::Lax),
                ..plain_cookie(name@, value@)
            }),
    {
        Self::new(name, value).http_only(true).secure(true).same_site(SameSite::Lax)
    }

    /// A session cookie that lives for `max_age_secs` seconds.
    pub fn permanent(name: &str, value: &str, max_age_secs: u64) -> (c: Self)
        ensures
            c@ == (CookieView {
                secure: true,
                http_only: true,
                same_site: Some(SameSite::Lax),
                max_age: Some(max_age_secs as nat),
                ..plain_cookie(name@, value@)
            }),
    {
        Self::new(name, value).http_only(true).secure(true).same_site(SameSite::Lax).max_age(
            max_age_secs,
        )
    }

    /// A cookie that makes the client drop `name`: empty value, no age, and
    /// expired at the Unix epoch.
    pub fn deleted(name: &str) -> (c: Self)
        ensures
            c@ == (CookieView { max_age: Some(0), expires: Some((0, 0)), ..plain_cookie(name@, ""@) }),
    {
        Self::new(name, "").max_age(0).expires(0, 0)
    }

    /// Sets the `Domain` attribute.
    pub fn domain(self, domain: &str) -> (c: Self)
        ensures
            c@ == (CookieView { domain: Some(domain@), ..self@ }),
    {
        Cookie { domain: Some(string_of(domain)), ..self }
    }

    /// Sets the `Path` attribute.
    pub fn path(self, path: &str) -> (c: Self)
        ensures
            c@ == (CookieView { path: Some(path@), ..self@ }),
    {
        Cookie { path: Some(string_of(path)), ..self }
    }

    /// Sets the `Max-Age` attribute, in whole seconds.
    pub fn max_age(self, secs: u64) -> (c: Self)
        ensures
            c@ == (CookieView { max_age: Some(secs as nat), ..self@ }),
    {
        Cookie { max_age: Some(secs), ..self }
    }

    /// Sets the `Expires` attribute to an instant, in seconds since the Unix
    /// epoch, written at the UTC offset `offset_seconds` (east positive).
    pub fn expires(self, unix_seconds: i64, offset_seconds: i32) -> (c: Self)
        ensures
            c@ == (CookieView { expires: Some((unix_seconds as int, offset_seconds as int)), ..self@ }),
    {
        Cookie { expires: Some((unix_seconds, offset_seconds)), ..self }
    }

    /// Sets the `Secure` flag.
    pub fn secure(self, secure: bool) -> (c: Self)
        ensures
            c@ == (CookieView { secure, ..self@ }),
    {
        Cookie { secure, ..self }
    }

    /// Sets the `HttpOnly` flag.
    pub fn http_only(self, http_only: bool) -> (c: Self)
        ensures
            c@ == (CookieView { http_only, ..self@ }),
    {
        Cookie { http_only, ..self }
    }

    /// Sets the `SameSite` attribute.
    pub fn same_site(self, same_site: SameSite) -> (c: Self)
        ensures
            c@ == (CookieView { same_site: Some(same_site), ..self@ }),
    {
        Cookie { same_site: Some(same_site), ..self }
    }

    /// The `Set-Cookie` value of the cookie.
    pub fn build(self) -> (r: String)
        ensures
            r@ == cookie_string(self@),
    {
        self.render()
    }

    fn render(&self) -> (r: String)
        ensures
            r@ == cookie_string(self@),
    {
        let ghost c = self@;
        let mut s = string_of(self.name.as_str());
        push_str(&mut s, "=");
        push_str(&mut s, self.value.as_str());
        let ghost s0 = s@;
        match &self.domain {
            Some(d) => push_attr(&mut s, "; Domain=", Some(d.as_str())),
            None => push_attr(&mut s, "; Domain=", None),
        }
        let ghost s1 = s@;
        match &self.path {
            Some(p) => push_attr(&mut s, "; Path=", Some(p.as_str())),
            None => push_attr(&mut s, "; Path=", None),
        }
        let ghost s2 = s@;
        match self.max_age {
            Some(m) => {
                let t = crate::text::u64_to_string(m);
                push_attr(&mut s, "; Max-Age=", Some(t.as_str()));
            },
            None => push_attr(&mut s, "; Max-Age=", None),
        }
        let ghost s3 = s@;
        let f = match self.expires {
            Some(t) => format_rfc2822(t.0, t.1),
            None => None,
        };
        match &f {
            Some(x) => push_attr(&mut s, "; Expires=", Some(x.as_str())),
            None => push_attr(&mut s, "; Expires=", None),
        }
        let ghost s4 = s@;
        push_flag(&mut s, "; Secure", self.secure);
        let ghost s5 = s@;
        push_flag(&mut s, "; HttpOnly", self.http_only);
        let ghost s6 = s@;
        match self.same_site {
            Some(x) => push_attr(&mut s, "; SameSite=", Some(x.as_str())),
            None => push_attr(&mut s, "; SameSite=", None),
        }
        assert(s0 == c.name + "="@ + c.value);
        s
    }

    /// The cookie's name.
    pub fn name(&self) -> (r: &str)
        ensures
            r@ == self@.name,
    {
        self.name.as_str()
    }

    /// The cookie's value.
    pub fn value(&self) -> (r: &str)
        ensures
            r@ == self@.value,
    {
        self.value.as_str()
    }
}

} // verus!

verus! {

/// The cookies to set on a response.
#[derive(Debug, Clone)]
pub struct CookieJar {
    cookies: Vec<Cookie>,
}

impl View for CookieJar {
    type V = Seq<CookieView>;

    closed spec fn view(&self) -> Seq<CookieView> {
        self.cookies@.map_values(|c: Cookie| c@)
    }
}

/// The `Set-Cookie` values of a list of cookies, leaving out those that are
/// not valid header values.
pub open spec fn jar_header_values(cs: Seq<CookieView>) -> Seq<Seq<char>>
    decreases cs.len(),
{
    if cs.len() == 0 {
        Seq::empty()
    } else {
        let rest = jar_header_values(cs.drop_last());
        if header_value_valid(cookie_string(cs.last())) {
            rest.push(cookie_string(cs.last()))
        } else {
            rest
        }
    }
}

impl Default for CookieJar {
    fn default() -> (j: Self)
        ensures
            j@ == Seq::<CookieView>::empty(),
    {
        CookieJar { cookies: Vec::new() }
    }
}

impl CookieJar {
    /// An empty jar.
    pub fn new() -> (j: Self)
        ensures
            j@ == Seq::<CookieView>::empty(),
    {
        CookieJar { cookies: Vec::new() }
    }

    /// Adds a cookie to set.
    pub fn add(&mut self, cookie: Cookie)
        ensures
            final(self)@ == old(self)@.push(cookie@),
    {
        self.cookies.push(cookie);
        assert(self@ =~= old(self)@.push(cookie@));
    }

    /// Adds a cookie that deletes `name` on the client.
    pub fn remove(&mut self, name: &str)
        ensures
            final(self)@ == old(self)@.push(
                CookieView { max_age: Some(0), expires: Some((0, 0)), ..plain_cookie(name@, ""@) },
            ),
    {
        let c = Cookie::deleted(name);
        self.add(c);
    }

    /// The `Set-Cookie` headers of the jar, as (header name, value) pairs, in
    /// the order the cookies were added; a cookie whose value is not a valid
    /// header value is left out.
    pub fn headers(&self) -> (r: Vec<(String, String)>)
        ensures
            r@.len() == jar_header_values(self@).len(),
            forall|i: int|
                0 <= i < r@.len() ==> (#[trigger] r@[i]).0@ == "set-cookie"@ && r@[i].1@
                    == jar_header_values(self@)[i],
    {
        let mut r: Vec<(String, String)> = Vec::new();
        let mut i: usize = 0;
        while i < self.cookies.len()
            invariant
                i <= self.cookies@.len(),
                r@.len() == jar_header_values(self@.take(i as int)).len(),
                forall|k: int|
                    0 <= k < r@.len() ==> (#[trigger] r@[k]).0@ == "set-cookie"@ && r@[k].1@
                        == jar_header_values(self@.take(i as int))[k],
            decreases self.cookies@.len() - i,
        {
            let v = self.cookies[i].render();
            let ok = header_value_ok(v.as_str());
            assert(self@.take(i + 1).drop_last() =~= self@.take(i as int));
            if ok {
                r.push((string_of("set-cookie"), v));
            }
            i = i + 1;
        }
        assert(self@.take(self.cookies@.len() as int) =~= self@);
        r
    }
}

} // verus!

verus! {

/// The pieces of `s` between occurrences of `sep`, as `str::split` yields
/// them (there is always at least one piece).
pub open spec fn split_seq(s: Seq<char>, sep: char) -> Seq<Seq<char>>
    decreases s.len(),
{
    if s.len() == 0 {
        seq![Seq::empty()]
    } else {
        let prev = split_seq(s.drop_last(), sep);
        if s.last() == sep {
            prev.push(Seq::empty())
        } else {
            prev.update(prev.len() - 1, prev.last().push(s.last()))
        }
    }
}

pub proof fn lemma_split_nonempty(s: Seq<char>, sep: char)
    ensures
        split_seq(s, sep).len() >= 1,
    decreases s.len(),
{
    if s.len() > 0 {
        lemma_split_nonempty(s.drop_last(), sep);
    }
}

/// The first occurrence of `c` in `s` is at `i`.
pub open spec fn first_at(s: Seq<char>, c: char, i: int) -> bool {
    0 <= i < s.len() && s[i] == c && forall|k: int| 0 <= k < i ==> s[k] != c
}

/// The name and value of one `name=value` piece of a `Cookie` header: the
/// piece is trimmed, split at its first `=`, and both sides are trimmed; a
/// piece without `=` gives nothing.
pub open spec fn cookie_pair(seg: Seq<char>) -> Option<(Seq<char>, Seq<char>)> {
    let t = trim_seq(seg);
    if exists|i: int| first_at(t, '=', i) {
        let i = choose|i: int| first_at(t, '=', i);
        Some((trim_seq(t.take(i)), trim_seq(t.skip(i + 1))))
    } else {
        None
    }
}

/// The pairs that the pieces give, in order.
pub open spec fn pairs_of(segs: Seq<Seq<char>>) -> Seq<(Seq<char>, Seq<char>)>
    decreases segs.len(),
{
    if segs.len() == 0 {
        Seq::empty()
    } else {
        let rest = pairs_of(segs.drop_last());
        match cookie_pair(segs.last()) {
            Some(p) => rest.push(p),
            None => rest,
        }
    }
}

/// The (name, value) pairs of a `Cookie` request header.
pub open spec fn cookie_pairs(header: Seq<char>) -> Seq<(Seq<char>, Seq<char>)> {
    pairs_of(split_seq(header, ';'))
}

/// The views of a list of text pairs.
pub open spec fn pair_views(v: Seq<(String, String)>) -> Seq<(Seq<char>, Seq<char>)> {
    v.map_values(|p: (String, String)| (p.0@, p.1@))
}

/// The value of the first pair named `name`.
pub open spec fn first_value(pairs: Seq<(Seq<char>, Seq<char>)>, name: Seq<char>) -> Option<
    Seq<char>,
>
    decreases pairs.len(),
{
    if pairs.len() == 0 {
        None
    } else if pairs[0].0 == name {
        Some(pairs[0].1)
    } else {
        first_value(pairs.drop_first(), name)
    }
}

fn split_chars(s: &[char], sep: char) -> (r: Vec<Vec<char>>)
    ensures
        r@.map_values(|v: Vec<char>| v@) == split_seq(s@, sep),
{
    let mut done: Vec<Vec<char>> = Vec::new();
    let mut cur: Vec<char> = Vec::new();
    let mut i: usize = 0;
    assert(s@.take(0) =~= Seq::<char>::empty());
    assert(done@.map_values(|v: Vec<char>| v@).push(cur@) =~= split_seq(Seq::<char>::empty(), sep));
    while i < s.len()
        invariant
            i <= s@.len(),
            done@.map_values(|v: Vec<char>| v@).push(cur@) == split_seq(s@.take(i as int), sep),
        decreases s@.len() - i,
    {
        let ghost pre = s@.take(i as int);
        assert(s@.take(i + 1).drop_last() =~= pre);
        assert(s@.take(i + 1).last() == s@[i as int]);
        proof {
            lemma_split_nonempty(pre, sep);
        }
        if s[i] == sep {
            let old_cur = cur;
            done.push(old_cur);
            cur = Vec::new();
            assert(done@.map_values(|v: Vec<char>| v@) =~= split_seq(pre, sep));
            assert(done@.map_values(|v: Vec<char>| v@).push(cur@) =~= split_seq(
                s@.take(i + 1),
                sep,
            ));
        } else {
            let ghost d = done@.map_values(|v: Vec<char>| v@);
            cur.push(s[i]);
            assert(done@.map_values(|v: Vec<char>| v@).push(cur@) =~= split_seq(
                s@.take(i + 1),
                sep,
            ));
        }
        i = i + 1;
    }
    assert(s@.take(s@.len() as int) =~= s@);
    done.push(cur);
    done
}

fn pair_of(seg: &[char]) -> (r: Option<(String, String)>)
    ensures
        match r {
            Some(p) => cookie_pair(seg@) == Some((p.0@, p.1@)),
            None => cookie_pair(seg@) is None,
        },
{
    let t = trim_chars(seg);
    match crate::text::find_char(t.as_slice(), '=', 0) {
        Some(i) => {
            assert(first_at(t@, '=', i as int));
            let ghost j = choose|j: int| first_at(t@, '=', j);
            assert(j == i) by {
                if j < i {
                    assert(t@[j] != '=');
                } else if i < j {
                    assert(t@[i as int] != '=');
                }
            }
            let name_part = slice_chars(t.as_slice(), 0, i);
            let value_part = slice_chars(t.as_slice(), i + 1, t.len());
            assert(name_part@ =~= t@.take(i as int));
            assert(value_part@ =~= t@.skip(i + 1));
            let n = trim_chars(name_part.as_slice());
            let v = trim_chars(value_part.as_slice());
            Some((from_chars(n.as_slice()), from_chars(v.as_slice())))
        },
        None => {
            assert(!exists|i: int| first_at(t@, '=', i));
            None
        },
    }
}

/// Reads the cookies a request carries.
pub struct CookieParser;

impl CookieParser {
    /// The (name, value) pairs of the request's `Cookie` header, given as its
    /// text; no header gives no pairs.
    pub fn parse(cookie_header: Option<&str>) -> (r: Vec<(String, String)>)
        ensures
            pair_views(r@) == match cookie_header {
                Some(h) => cookie_pairs(h@),
                None => Seq::empty(),
            },
    {
        match cookie_header {
            Some(h) => Self::parse_cookie_header(h),
            None => {
                let r: Vec<(String, String)> = Vec::new();
                assert(pair_views(r@) =~= Seq::empty());
                r
            },
        }
    }

    /// The value of the first cookie named `name` in the request's `Cookie`
    /// header.
    pub fn get(cookie_header: Option<&str>, name: &str) -> (r: Option<String>)
        ensures
            opt_view(r) == first_value(
                match cookie_header {
                    Some(h) => cookie_pairs(h@),
                    None => Seq::empty(),
                },
                name@,
            ),
    {
        let pairs = Self::parse(cookie_header);
        let mut i: usize = 0;
        assert(pair_views(pairs@).skip(0) =~= pair_views(pairs@));
        while i < pairs.len()
            invariant
                i <= pairs@.len(),
                pair_views(pairs@) == match cookie_header {
                    Some(h) => cookie_pairs(h@),
                    None => Seq::empty(),
                },
                first_value(pair_views(pairs@), name@) == first_value(
                    pair_views(pairs@).skip(i as int),
                    name@,
                ),
            decreases pairs@.len() - i,
        {
            let ghost rest = pair_views(pairs@).skip(i as int);
            assert(rest.drop_first() =~= pair_views(pairs@).skip(i + 1));
            assert(rest[0] == (pairs@[i as int].0@, pairs@[i as int].1@));
            if str_eq(pairs[i].0.as_str(), name) {
                assert(rest.len() > 0);
                assert(first_value(rest, name@) == Some(rest[0].1));
                return Some(string_of(pairs[i].1.as_str()));
            }
            i = i + 1;
        }
        None
    }

    /// The (name, value) pairs of a `Cookie` header's text.
    pub fn parse_cookie_header(header: &str) -> (r: Vec<(String, String)>)
        ensures
            pair_views(r@) == cookie_pairs(header@),
    {
        let chars = to_chars(header);
        let segs = split_chars(chars.as_slice(), ';');
        let ghost sv = segs@.map_values(|v: Vec<char>| v@);
        let mut r: Vec<(String, String)> = Vec::new();
        let mut i: usize = 0;
        assert(pair_views(r@) =~= pairs_of(sv.take(0)));
        while i < segs.len()
            invariant
                i <= segs@.len(),
                sv == segs@.map_values(|v: Vec<char>| v@),
                pair_views(r@) == pairs_of(sv.take(i as int)),
            decreases segs@.len() - i,
        {
            assert(sv.take(i + 1).drop_last() =~= sv.take(i as int));
            assert(sv.take(i + 1).last() == segs@[i as int]@);
            match pair_of(segs[i].as_slice()) {
                Some(p) => {
                    r.push(p);
                    assert(pair_views(r@) =~= pairs_of(sv.take(i + 1)));
                },
                None => {},
            }
            i = i + 1;
        }
        assert(sv.take(segs@.len() as int) =~= sv);
        r
    }
}

proof fn lemma_split_without_sep(s: Seq<char>, sep: char)
    requires
        !s.contains(sep),
    ensures
        split_seq(s, sep) == seq![s],
    decreases s.len(),
{
    if s.len() > 0 {
        let p = s.drop_last();
        assert(!p.contains(sep)) by {
            if p.contains(sep) {
                let k = choose|k: int| 0 <= k < p.len() && p[k] == sep;
                assert(s[k] == sep);
            }
        }
        lemma_split_without_sep(p, sep);
        assert(s.last() != sep) by {
            assert(s[s.len() - 1] == s.last());
        }
        assert(p.push(s.last()) =~= s);
        assert(split_seq(s, sep) =~= seq![s]);
    } else {
        assert(s =~= Seq::<char>::empty());
    }
}

proof fn lemma_trimmed_ends(s: Seq<char>)
    requires
        trim_seq(s) == s,
        s.len() > 0,
    ensures
        !is_ws(s[0]),
        !is_ws(s.last()),
{
    lemma_ws_bounds(s);
    if is_ws(s[0]) {
        assert(leading_ws(s) >= 1);
        lemma_ws_bounds(s.skip(leading_ws(s) as int));
        assert(trim_seq(s).len() < s.len());
    }
    if is_ws(s.last()) {
        lemma_ws_bounds(s);
        let t = s.skip(leading_ws(s) as int);
        if leading_ws(s) == 0 {
            assert(t =~= s);
            assert(trailing_ws(t) >= 1);
            lemma_ws_bounds(t);
        } else {
            lemma_ws_bounds(t);
        }
        assert(trim_seq(s).len() < s.len());
    }
}

proof fn lemma_ws_bounds(s: Seq<char>)
    ensures
        leading_ws(s) <= s.len(),
        trailing_ws(s) <= s.len(),
    decreases s.len(),
{
    if s.len() > 0 {
        lemma_ws_bounds(s.drop_first());
        lemma_ws_bounds(s.drop_last());
    }
}

proof fn lemma_no_ws_ends_trimmed(s: Seq<char>)
    requires
        s.len() > 0,
        !is_ws(s[0]),
        !is_ws(s.last()),
    ensures
        trim_seq(s) == s,
{
    assert(leading_ws(s) == 0);
    assert(s.skip(0) =~= s);
    assert(trailing_ws(s) == 0);
    assert(s.take(s.len() as int) =~= s);
}

/// A cookie set with a plain name and value comes back: when the client
/// returns the `name=value` part of the `Set-Cookie` value in its `Cookie`
/// header, reading that header gives the one pair, and looking the name up
/// gives the value. The name and value hold no `;`, the name no `=`, and
/// neither starts or ends with white space.
pub proof fn law_cookie_round_trip(name: Seq<char>, value: Seq<char>)
    requires
        !name.contains(';'),
        !value.contains(';'),
        !name.contains('='),
        trim_seq(name) == name,
        trim_seq(value) == value,
    ensures
        cookie_string(plain_cookie(name, value)) == name + "="@ + value,
        cookie_pairs(name + "="@ + value) == seq![(name, value)],
        first_value(cookie_pairs(name + "="@ + value), name) == Some(value),
{
    reveal_strlit("=");
    let t = name + "="@ + value;
    assert(cookie_string(plain_cookie(name, value)) =~= t);
    assert(!t.contains(';')) by {
        if t.contains(';') {
            let k = choose|k: int| 0 <= k < t.len() && t[k] == ';';
            if k < name.len() {
                assert(name[k] == ';');
            } else if k > name.len() {
                assert(value[k - name.len() - 1] == ';');
            }
        }
    }
    lemma_split_without_sep(t, ';');
    if name.len() > 0 {
        lemma_trimmed_ends(name);
        assert(t[0] == name[0]);
    }
    if value.len() > 0 {
        lemma_trimmed_ends(value);
        assert(t.last() == value.last());
    }
    lemma_no_ws_ends_trimmed(t);
    let i = name.len() as int;
    assert(first_at(t, '=', i)) by {
        assert forall|k: int| 0 <= k < i implies t[k] != '=' by {
            assert(t[k] == name[k]);
        }
    }
    let j = choose|j: int| first_at(t, '=', j);
    assert(j == i) by {
        if j < i {
            assert(t[j] == name[j]);
        }
    }
    assert(t.take(i) =~= name);
    assert(t.skip(i + 1) =~= value);
    assert(cookie_pair(t) == Some((name, value)));
    assert(seq![t].drop_last() =~= Seq::<Seq<char>>::empty());
    assert(seq![t].last() == t);
    assert(pairs_of(seq![t]) =~= pairs_of(Seq::<Seq<char>>::empty()).push((name, value)));
}

} // verus!
