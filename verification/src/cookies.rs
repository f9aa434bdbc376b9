//! The session cookie: its attributes, the text that sets or clears it, and
//! how a value is read back out of a cookie string.

use vstd::prelude::*;
use crate::session::text_of;
use crate::text::chars_of;
use crate::text::decimal;
use crate::text::is_space;
use crate::text::is_whitespace;
use crate::text::push_decimal;

verus! {

/// The cross-site policy of a cookie.
#[derive(Clone, Copy, Debug, PartialEq, Eq, Structural)]
pub enum SameSite {
    /// Sent only on requests from the site itself.
    Strict,
    /// Sent on same-site requests and on top-level navigation to the site.
    Lax,
    /// Sent on every request: the attribute value `None`.
    Unrestricted,
}

/// The attributes of the session cookie.
#[derive(Debug)]
pub struct CookieConfig {
    pub name: String,
    pub max_age_seconds: i64,
    pub secure: bool,
    pub http_only: bool,
    pub same_site: SameSite,
    pub path: String,
    pub domain: Option<String>,
}

/// The mathematical content of a `CookieConfig`.
pub ghost struct CookieConfigView {
    pub name: Seq<char>,
    pub max_age_seconds: i64,
    pub secure: bool,
    pub http_only: bool,
    pub same_site: SameSite,
    pub path: Seq<char>,
    pub domain: Option<Seq<char>>,
}

impl View for CookieConfig {
    type V = CookieConfigView;

    open spec fn view(&self) -> CookieConfigView {
        CookieConfigView {
            name: self.name@,
            max_age_seconds: self.max_age_seconds,
            secure: self.secure,
            http_only: self.http_only,
            same_site: self.same_site,
            path: self.path@,
            domain: text_of(self.domain),
        }
    }
}

/// The attributes that the session cookie has by default: it is named
/// `session_id`, lasts a day, is hidden from page scripts, is sent on
/// same-site requests and top-level navigation, and covers the whole site.
pub open spec fn default_cookie() -> CookieConfigView {
    CookieConfigView {
        name: "session_id"@,
        max_age_seconds: 86400,
        secure: false,
        http_only: true,
        same_site: SameSite::Lax,
        path: "/"@,
        domain: None,
    }
}

impl Default for CookieConfig {
    fn default() -> (config: CookieConfig)
        ensures
            config@ == default_cookie(),
    {
        CookieConfig {
            name: "session_id".to_owned(),
            max_age_seconds: 24 * 60 * 60,
            secure: false,
            http_only: true,
            same_site: SameSite::Lax,
            path: "/".to_owned(),
            domain: None,
        }
    }
}

/// The attribute that states a cross-site policy.
pub open spec fn same_site_text(policy: SameSite) -> Seq<char> {
    match policy {
        SameSite::Strict => "; SameSite=Strict"@,
        SameSite::Lax => "; SameSite=Lax"@,
        SameSite::Unrestricted => "; SameSite=None"@,
    }
}

/// The attribute that marks a cookie as for encrypted transport only, if it
/// is to be.
pub open spec fn secure_text(secure: bool) -> Seq<char> {
    if secure {
        "; Secure"@
    } else {
        Seq::empty()
    }
}

/// The attribute that names the domain, if one is given.
pub open spec fn domain_text(domain: Option<Seq<char>>) -> Seq<char> {
    match domain {
        Some(d) => "; Domain="@ + d,
        None => Seq::empty(),
    }
}

/// The text that sets a cookie: the pair, the path, the age, then the
/// attributes that the configuration asks for. A script cannot hide a cookie
/// from scripts, so that attribute is never written.
pub open spec fn cookie_text(
    config: CookieConfigView,
    name: Seq<char>,
    value: Seq<char>,
    max_age: int,
) -> Seq<char> {
    name + "="@ + value + "; Path="@ + config.path + "; Max-Age="@ + decimal(max_age)
        + secure_text(config.secure) + same_site_text(config.same_site) + domain_text(
        config.domain,
    )
}

/// The text that clears a cookie: an empty value that expired long ago.
pub open spec fn clearing_text(config: CookieConfigView, name: Seq<char>) -> Seq<char> {
    name + "=; Path="@ + config.path + "; Max-Age=-1; Expires=Thu, 01 Jan 1970 00:00:00 GMT"@
}

impl CookieConfig {
    /// Writes the text that sets a cookie with these attributes.
    pub fn setting(&self, name: &str, value: &str, max_age: i64) -> (text: String)
        ensures
            text@ == cookie_text(self@, name@, value@, max_age as int),
    {
        let mut text = String::new();
        text.append(name);
        text.append("=");
        text.append(value);
        text.append("; Path=");
        text.append(self.path.as_str());
        text.append("; Max-Age=");
        push_decimal(&mut text, max_age);
        if self.secure {
            text.append("; Secure");
        }
        match self.same_site {
            SameSite::Strict => text.append("; SameSite=Strict"),
            SameSite::Lax => text.append("; SameSite=Lax"),
            SameSite::Unrestricted => text.append("; SameSite=None"),
        }
        match &self.domain {
            Some(domain) => {
                text.append("; Domain=");
                text.append(domain.as_str());
            },
            None => {},
        }
        assert(text@ =~= cookie_text(self@, name@, value@, max_age as int));
        text
    }

    /// Writes the text that clears a cookie under this path.
    pub fn clearing(&self, name: &str) -> (text: String)
        ensures
            text@ == clearing_text(self@, name@),
    {
        let mut text = String::new();
        text.append(name);
        text.append("=; Path=");
        text.append(self.path.as_str());
        text.append("; Max-Age=-1; Expires=Thu, 01 Jan 1970 00:00:00 GMT");
        assert(text@ =~= clearing_text(self@, name@));
        text
    }
}

/// The age that a cookie is set with: the one given or, where none is, the
/// default.
pub open spec fn age_or_default(max_age_seconds: Option<i64>) -> int {
    match max_age_seconds {
        Some(age) => age as int,
        None => default_cookie().max_age_seconds as int,
    }
}

/// Writes the text that sets a cookie with the default attributes, to last
/// `max_age_seconds` or, where none is given, a day.
pub fn set_client_cookie(name: &str, value: &str, max_age_seconds: Option<i64>) -> (text: String)
    ensures
        text@ == cookie_text(default_cookie(), name@, value@, age_or_default(max_age_seconds)),
{
    let config = CookieConfig::default();
    let max_age = match max_age_seconds {
        Some(age) => age,
        None => config.max_age_seconds,
    };
    config.setting(name, value, max_age)
}

/// Writes the text that clears a cookie under the default path.
pub fn clear_client_cookie(name: &str) -> (text: String)
    ensures
        text@ == clearing_text(default_cookie(), name@),
{
    let config = CookieConfig::default();
    config.clearing(name)
}

/// Whether `i` is the first place in `[lo, hi)` where `c` stands, or is `hi`
/// where it stands nowhere there.
pub open spec fn is_first_at(s: Seq<char>, c: char, lo: int, hi: int, i: int) -> bool {
    &&& lo <= i <= hi
    &&& i < hi ==> s[i] == c
    &&& forall|j: int| lo <= j < i ==> s[j] != c
}

/// The first place in `[lo, hi)` where `c` stands, or `hi`.
pub open spec fn first_at(s: Seq<char>, c: char, lo: int, hi: int) -> int {
    choose|i: int| is_first_at(s, c, lo, hi, i)
}

/// Whether `i` is the first place in `[lo, hi)` that holds no white space,
/// or is `hi` where all of it is white space.
pub open spec fn is_trim_start(s: Seq<char>, lo: int, hi: int, i: int) -> bool {
    &&& lo <= i <= hi
    &&& i < hi ==> !is_space(s[i])
    &&& forall|j: int| lo <= j < i ==> is_space(s[j])
}

/// Where `[lo, hi)` begins once leading white space is left out.
pub open spec fn trim_start(s: Seq<char>, lo: int, hi: int) -> int {
    choose|i: int| is_trim_start(s, lo, hi, i)
}

/// Whether `i` is just behind the last place in `[lo, hi)` that holds no
/// white space, or is `lo` where all of it is white space.
pub open spec fn is_trim_end(s: Seq<char>, lo: int, hi: int, i: int) -> bool {
    &&& lo <= i <= hi
    &&& i > lo ==> !is_space(s[i - 1])
    &&& forall|j: int| i <= j < hi ==> is_space(s[j])
}

/// Where `[lo, hi)` ends once trailing white space is left out.
pub open spec fn trim_end(s: Seq<char>, lo: int, hi: int) -> int {
    choose|i: int| is_trim_end(s, lo, hi, i)
}

/// The value of the first pair named `name` among the pairs of `s` from
/// `pos` on.
///
/// Pairs are separated by `;`. White space around a pair and behind its name
/// is left out; the value is what follows the first `=`, as it stands. A
/// piece without `=` is no pair.
pub open spec fn value_from(s: Seq<char>, name: Seq<char>, pos: int) -> Option<Seq<char>>
    decreases s.len() - pos,
{
    if pos < 0 || pos > s.len() {
        None
    } else {
        let end = first_at(s, ';', pos, s.len() as int);
        let a = trim_start(s, pos, end);
        let b = trim_end(s, a, end);
        let e = first_at(s, '=', a, b);
        if a <= e < b && s.subrange(a, trim_end(s, a, e)) == name {
            Some(s.subrange(e + 1, b))
        } else if pos <= end < s.len() {
            value_from(s, name, end + 1)
        } else {
            None
        }
    }
}

/// The value that a cookie string holds under a name, if it holds one.
pub open spec fn cookie_value(cookies: Seq<char>, name: Seq<char>) -> Option<Seq<char>> {
    value_from(cookies, name, 0)
}

/// Only one place is the first.
pub proof fn lemma_first_at(s: Seq<char>, c: char, lo: int, hi: int, i: int)
    requires
        is_first_at(s, c, lo, hi, i),
    ensures
        first_at(s, c, lo, hi) == i,
{
    let k = first_at(s, c, lo, hi);
    assert(is_first_at(s, c, lo, hi, k));
    if k < i {
        assert(s[k] != c);
    } else if i < k {
        assert(s[i] != c);
    }
}

/// Only one place is where the trimmed range begins.
pub proof fn lemma_trim_start(s: Seq<char>, lo: int, hi: int, i: int)
    requires
        is_trim_start(s, lo, hi, i),
    ensures
        trim_start(s, lo, hi) == i,
{
    let k = trim_start(s, lo, hi);
    assert(is_trim_start(s, lo, hi, k));
    if k < i {
        assert(is_space(s[k]));
    } else if i < k {
        assert(is_space(s[i]));
    }
}

/// Only one place is where the trimmed range ends.
pub proof fn lemma_trim_end(s: Seq<char>, lo: int, hi: int, i: int)
    requires
        is_trim_end(s, lo, hi, i),
    ensures
        trim_end(s, lo, hi) == i,
{
    let k = trim_end(s, lo, hi);
    assert(is_trim_end(s, lo, hi, k));
    if k < i {
        assert(is_space(s[i - 1]));
    } else if i < k {
        assert(is_space(s[k - 1]));
    }
}

/// Finds the first place in `[lo, hi)` where `c` stands.
fn find_char(s: &Vec<char>, c: char, lo: usize, hi: usize) -> (i: usize)
    requires
        lo <= hi <= s.len(),
    ensures
        is_first_at(s@, c, lo as int, hi as int, i as int),
        i == first_at(s@, c, lo as int, hi as int),
{
    let mut i = lo;
    while i < hi && s[i] != c
        invariant
            lo <= i <= hi <= s.len(),
            forall|j: int| lo <= j < i ==> s@[j] != c,
        decreases hi - i,
    {
        i += 1;
    }
    proof {
        lemma_first_at(s@, c, lo as int, hi as int, i as int);
    }
    i
}

/// Finds where `[lo, hi)` begins once leading white space is left out.
fn skip_spaces(s: &Vec<char>, lo: usize, hi: usize) -> (i: usize)
    requires
        lo <= hi <= s.len(),
    ensures
        is_trim_start(s@, lo as int, hi as int, i as int),
        i == trim_start(s@, lo as int, hi as int),
{
    let mut i = lo;
    while i < hi && is_whitespace(s[i])
        invariant
            lo <= i <= hi <= s.len(),
            forall|j: int| lo <= j < i ==> is_space(s@[j]),
        decreases hi - i,
    {
        i += 1;
    }
    proof {
        lemma_trim_start(s@, lo as int, hi as int, i as int);
    }
    i
}

/// Finds where `[lo, hi)` ends once trailing white space is left out.
fn drop_spaces(s: &Vec<char>, lo: usize, hi: usize) -> (i: usize)
    requires
        lo <= hi <= s.len(),
    ensures
        is_trim_end(s@, lo as int, hi as int, i as int),
        i == trim_end(s@, lo as int, hi as int),
{
    let mut i = hi;
    while i > lo && is_whitespace(s[i - 1])
        invariant
            lo <= i <= hi <= s.len(),
            forall|j: int| i <= j < hi ==> is_space(s@[j]),
        decreases i - lo,
    {
        i -= 1;
    }
    proof {
        lemma_trim_end(s@, lo as int, hi as int, i as int);
    }
    i
}

/// Tells whether `[lo, hi)` of `s` reads the same as `other`.
fn range_is(s: &Vec<char>, lo: usize, hi: usize, other: &Vec<char>) -> (same: bool)
    requires
        lo <= hi <= s.len(),
    ensures
        same == (s@.subrange(lo as int, hi as int) == other@),
{
    if hi - lo != other.len() {
        return false;
    }
    let n = other.len();
    let mut k: usize = 0;
    while k < n
        invariant
            lo <= hi <= s.len(),
            n == other.len(),
            hi - lo == n,
            k <= n,
            forall|j: int| 0 <= j < k ==> s@[lo + j] == other@[j],
        decreases n - k,
    {
        if s[lo + k] != other[k] {
            assert(s@.subrange(lo as int, hi as int)[k as int] != other@[k as int]);
            return false;
        }
        k += 1;
    }
    assert(s@.subrange(lo as int, hi as int) =~= other@);
    true
}

/// Reads the value that a cookie string holds under a name.
///
/// The string is a list of `name=value` pairs separated by `;`, as a
/// document hands its cookies out. The first pair of that name counts.
pub fn get_client_cookie(cookies: &str, name: &str) -> (value: Option<String>)
    ensures
        text_of(value) == cookie_value(cookies@, name@),
{
    let s = chars_of(cookies);
    let wanted = chars_of(name);
    let n = s.len();
    let mut pos: usize = 0;
    loop
        invariant
            s@ == cookies@,
            wanted@ == name@,
            n == s.len(),
            pos <= n,
            cookie_value(cookies@, name@) == value_from(s@, name@, pos as int),
        decreases n - pos,
    {
        let end = find_char(&s, ';', pos, n);
        let a = skip_spaces(&s, pos, end);
        let b = drop_spaces(&s, a, end);
        let e = find_char(&s, '=', a, b);
        if e < b {
            let key_end = drop_spaces(&s, a, e);
            if range_is(&s, a, key_end, &wanted) {
                let found = cookies.substring_char(e + 1, b);
                return Some(found.to_owned());
            }
        }
        if end < n {
            pos = end + 1;
        } else {
            return None;
        }
    }
}

} // verus!
