//! URLs as the `url` crate reads and rewrites them, seen through their parts.
//!
//! A URL is held by the texts that the relay client looks at. The URL type
//! itself, with its parser and setters, stays behind the functions below; each
//! takes a URL as text and hands back what the URL type makes of it.
use reqwest::Url;
use vstd::prelude::*;

verus! {

/// The parts of a URL that the relay client looks at. What follows the path is
/// read apart from them.
#[derive(Debug, Clone)]
pub struct UrlParts {
    /// The whole URL, serialised.
    pub href: String,
    pub scheme: String,
    pub username: String,
    pub password: Option<String>,
    pub path: String,
}

/// The texts of a URL's parts.
pub struct UrlView {
    pub href: Seq<char>,
    pub scheme: Seq<char>,
    pub username: Seq<char>,
    pub password: Option<Seq<char>>,
    pub path: Seq<char>,
}

/// The text of an optional part.
pub open spec fn text_of(part: Option<String>) -> Option<Seq<char>> {
    match part {
        Some(text) => Some(text@),
        None => None,
    }
}

impl View for UrlParts {
    type V = UrlView;

    open spec fn view(&self) -> UrlView {
        UrlView {
            href: self.href@,
            scheme: self.scheme@,
            username: self.username@,
            password: text_of(self.password),
            path: self.path@,
        }
    }
}

/// What parsing `text` as a URL gives: the parts, or the parser's complaint.
pub uninterp spec fn url_parsed(text: Seq<char>) -> Result<UrlView, Seq<char>>;

/// A parse result with its texts.
pub open spec fn parse_view(parsed: Result<UrlParts, String>) -> Result<UrlView, Seq<char>> {
    match parsed {
        Ok(url) => Ok(url@),
        Err(reason) => Err(reason@),
    }
}

/// The kinds of characters that the URL parser runs over.
#[derive(Debug, Clone, Copy, PartialEq, Eq, Structural)]
pub enum CharClass {
    /// What a scheme is made of.
    Scheme,
    /// A slash, or what a special scheme takes for one.
    Slash,
    /// The authority of a special scheme.
    SpecialAuthority,
    /// The authority of any other scheme.
    Authority,
    /// What stands in front of the query and the fragment.
    BeforeTail,
    /// What stands in front of the fragment.
    BeforeFragment,
}

pub open spec fn is_letter(c: char) -> bool {
    ('a' <= c <= 'z') || ('A' <= c <= 'Z')
}

impl CharClass {
    /// Whether a character is of the kind.
    pub open spec fn has(self, c: char) -> bool {
        match self {
            CharClass::Scheme => is_letter(c) || ('0' <= c <= '9') || c == '+' || c == '-' || c
                == '.',
            CharClass::Slash => c == '/' || c == '\\',
            CharClass::SpecialAuthority => c != '/' && c != '\\' && c != '?' && c != '#',
            CharClass::Authority => c != '/' && c != '?' && c != '#',
            CharClass::BeforeTail => c != '?' && c != '#',
            CharClass::BeforeFragment => c != '#',
        }
    }

    /// Tests whether a character is of the kind.
    fn includes(self, c: char) -> (r: bool)
        ensures
            r == self.has(c),
    {
        match self {
            CharClass::Scheme => ('a' <= c && c <= 'z') || ('A' <= c && c <= 'Z') || ('0' <= c && c
                <= '9') || c == '+' || c == '-' || c == '.',
            CharClass::Slash => c == '/' || c == '\\',
            CharClass::SpecialAuthority => c != '/' && c != '\\' && c != '?' && c != '#',
            CharClass::Authority => c != '/' && c != '?' && c != '#',
            CharClass::BeforeTail => c != '?' && c != '#',
            CharClass::BeforeFragment => c != '#',
        }
    }
}

/// How many characters at the start of a text are of one kind.
pub open spec fn span(s: Seq<char>, class: CharClass) -> nat
    decreases s.len(),
{
    if s.len() == 0 || !class.has(s[0]) {
        0
    } else {
        1 + span(s.drop_first(), class)
    }
}

/// What the URL parser reads of a text, up to the blanks at its end: it passes
/// over tabs and line breaks everywhere, and over blanks and control characters
/// in front.
pub open spec fn read_on(text: Seq<char>) -> Seq<char>
    decreases text.len(),
{
    if text.len() == 0 {
        text
    } else {
        let earlier = read_on(text.drop_last());
        let c = text.last();
        if c == '\t' || c == '\n' || c == '\r' || (earlier.len() == 0 && c <= ' ') {
            earlier
        } else {
            earlier.push(c)
        }
    }
}

/// A text without the blanks and control characters at its end.
pub open spec fn trimmed_end(s: Seq<char>) -> Seq<char>
    decreases s.len(),
{
    if s.len() > 0 && s.last() <= ' ' {
        trimmed_end(s.drop_last())
    } else {
        s
    }
}

/// Whether the first `k` characters are a scheme's name, which is given in both
/// cases.
pub open spec fn is_named(s: Seq<char>, k: nat, lower: Seq<char>, upper: Seq<char>) -> bool {
    &&& k == lower.len()
    &&& k == upper.len()
    &&& k <= s.len()
    &&& forall|i: int| 0 <= i < k ==> (#[trigger] s[i] == lower[i] || s[i] == upper[i])
}

/// Whether the first `k` characters name a scheme whose URLs always have an
/// authority.
pub open spec fn names_special(s: Seq<char>, k: nat) -> bool {
    ||| is_named(s, k, "ws"@, "WS"@)
    ||| is_named(s, k, "wss"@, "WSS"@)
    ||| is_named(s, k, "http"@, "HTTP"@)
    ||| is_named(s, k, "https"@, "HTTPS"@)
    ||| is_named(s, k, "ftp"@, "FTP"@)
}

/// Whether the URL parser's counters are wide enough for what follows a scheme
/// of `k` characters. It counts the slashes of a special scheme in a `u32` and
/// the characters of an authority in an `i32`; a file URL has no authority to
/// count. Without an authority, the offset of the path may grow by two, and has
/// to stay a `u32`.
pub open spec fn counts_fit(s: Seq<char>, k: nat) -> bool {
    let rest = s.skip(k as int + 1);
    if names_special(s, k) {
        let slashes = span(rest, CharClass::Slash);
        slashes <= u32::MAX && span(rest.skip(slashes as int), CharClass::SpecialAuthority)
            <= i32::MAX
    } else if is_named(s, k, "file"@, "FILE"@) {
        true
    } else if rest.len() >= 2 && rest[0] == '/' && rest[1] == '/' {
        span(rest.skip(2), CharClass::Authority) <= i32::MAX
    } else {
        rest.len() > 0 && rest[0] == '/' ==> k + 3 <= u32::MAX || k == u32::MAX
    }
}

/// Whether the URL parser can count its way through a text. It counts only
/// behind a scheme, and only behind one whose length is a `u32`.
pub open spec fn countable(text: Seq<char>) -> bool {
    let s = trimmed_end(read_on(text));
    let k = span(s, CharClass::Scheme);
    0 < k < s.len() && is_letter(s[0]) && s[k as int] == ':' && k <= u32::MAX ==> counts_fit(s, k)
}

/// The HTTP scheme that goes with a WebSocket scheme.
pub open spec fn http_scheme(scheme: Seq<char>) -> Option<Seq<char>> {
    if scheme == "wss"@ {
        Some("https"@)
    } else if scheme == "ws"@ {
        Some("http"@)
    } else {
        None
    }
}

/// A character that a URL path holds as it is: visible ASCII other than the
/// ones that are percent-encoded, and other than the backslash, which the
/// parser takes for a slash.
pub open spec fn path_char(c: char) -> bool {
    &&& '!' <= c <= '~'
    &&& c != '"' && c != '#' && c != '<' && c != '>' && c != '?' && c != '\\' && c != '`' && c
        != '{' && c != '}'
}

/// One dot of a dot segment, plain or percent-encoded.
pub open spec fn dot(s: Seq<char>) -> bool {
    ||| s.len() == 1 && s[0] == '.'
    ||| s.len() == 3 && s[0] == '%' && s[1] == '2' && (s[2] == 'e' || s[2] == 'E')
}

/// A path segment that the parser resolves instead of keeping: one dot or two.
pub open spec fn dot_segment(s: Seq<char>) -> bool {
    dot(s) || exists|k: int|
        0 <= k <= s.len() && dot(s.subrange(0, k)) && #[trigger] dot(
            s.subrange(k, s.len() as int),
        )
}

/// A path in the form in which a hierarchical URL keeps it: it starts with a
/// slash, needs no encoding and has no dot segment between its slashes.
pub open spec fn normal_path(path: Seq<char>) -> bool {
    &&& path.len() > 0
    &&& path[0] == '/'
    &&& forall|i: int| 0 <= i < path.len() ==> path_char(#[trigger] path[i])
    &&& forall|i: int, j: int|
        0 <= i < j <= path.len() && path[i] == '/' && (j == path.len() || path[j] == '/')
            ==> !dot_segment(#[trigger] path.subrange(i + 1, j))
}

impl UrlView {
    /// Whether the scheme is one of a WebSocket.
    pub open spec fn is_web_socket(self) -> bool {
        http_scheme(self.scheme) is Some
    }

    /// Where the query and the fragment stand in the serialised URL, or its end
    /// if it has neither.
    pub open spec fn tail_start(self) -> nat {
        span(self.href, CharClass::BeforeTail)
    }

    /// The query: what stands between the first question mark and the fragment,
    /// unless that question mark is part of the fragment.
    pub open spec fn query(self) -> Option<Seq<char>> {
        let n = self.tail_start() as int;
        if n < self.href.len() && self.href[n] == '?' {
            let rest = self.href.skip(n + 1);
            Some(rest.take(span(rest, CharClass::BeforeFragment) as int))
        } else {
            None
        }
    }

    /// The fragment: what stands behind the first hash.
    pub open spec fn fragment(self) -> Option<Seq<char>> {
        let n = span(self.href, CharClass::BeforeFragment) as int;
        if n < self.href.len() {
            Some(self.href.skip(n + 1))
        } else {
            None
        }
    }

    /// Whether anything follows the path.
    pub open spec fn has_tail(self) -> bool {
        self.query() is Some || self.fragment() is Some
    }

    /// Whether what follows the path can be read. The URL type finds it by adding
    /// one to its offset, which has to stay a `u32`.
    pub open spec fn tail_fits(self) -> bool {
        self.tail_start() < self.href.len() ==> self.tail_start() != u32::MAX
    }

    /// Where the parts stand in the serialised URL: the scheme at its start and
    /// the path in front of the query and the fragment.
    pub open spec fn laid_out(self) -> bool {
        &&& self.scheme.len() + self.path.len() <= self.tail_start()
        &&& self.href.subrange(0, self.scheme.len() as int) == self.scheme
        &&& self.href.subrange(
            self.tail_start() - self.path.len(),
            self.tail_start() as int,
        ) == self.path
    }

    /// The URL with another scheme: everything behind the scheme stays.
    pub open spec fn with_scheme(self, scheme: Seq<char>) -> UrlView {
        UrlView {
            href: scheme + self.href.subrange(self.scheme.len() as int, self.href.len() as int),
            scheme,
            ..self
        }
    }

    /// The serialised URL with another path in the place of the path at its end.
    pub open spec fn href_with_path(self, path: Seq<char>) -> Seq<char> {
        self.href.subrange(0, self.href.len() - self.path.len()) + path
    }
}

/// A text starts with `k` characters of one kind if these are, and the next one
/// is not.
proof fn lemma_span_is(s: Seq<char>, class: CharClass, k: nat)
    requires
        k <= s.len(),
        forall|i: int| 0 <= i < k ==> class.has(#[trigger] s[i]),
        k < s.len() ==> !class.has(s[k as int]),
    ensures
        span(s, class) == k,
    decreases k,
{
    if k > 0 {
        let rest = s.drop_first();
        assert forall|i: int| 0 <= i < k - 1 implies class.has(#[trigger] rest[i]) by {
            assert(rest[i] == s[i + 1]);
        }
        lemma_span_is(rest, class, (k - 1) as nat);
    }
}

/// The characters that a span counts are of its kind, and the next one is not.
pub(crate) proof fn lemma_span(s: Seq<char>, class: CharClass)
    ensures
        span(s, class) <= s.len(),
        forall|i: int| 0 <= i < span(s, class) ==> class.has(#[trigger] s[i]),
        span(s, class) < s.len() ==> !class.has(s[span(s, class) as int]),
    decreases s.len(),
{
    if s.len() > 0 && class.has(s[0]) {
        let rest = s.drop_first();
        lemma_span(rest, class);
        assert forall|i: int| 0 <= i < span(s, class) implies class.has(#[trigger] s[i]) by {
            if i > 0 {
                assert(rest[i - 1] == s[i]);
            }
        }
    }
}

proof fn lemma_reading_shortens(text: Seq<char>)
    ensures
        read_on(text).len() <= text.len(),
    decreases text.len(),
{
    if text.len() > 0 {
        lemma_reading_shortens(text.drop_last());
    }
}

proof fn lemma_trimming_shortens(s: Seq<char>)
    ensures
        trimmed_end(s).len() <= s.len(),
    decreases s.len(),
{
    if s.len() > 0 && s.last() <= ' ' {
        lemma_trimming_shortens(s.drop_last());
    }
}

/// The URL parser can count its way through every text whose length is an `i32`.
pub proof fn law_texts_of_ordinary_length_are_countable(text: Seq<char>)
    requires
        text.len() <= i32::MAX,
    ensures
        countable(text),
{
    lemma_reading_shortens(text);
    lemma_trimming_shortens(read_on(text));
    let s = trimmed_end(read_on(text));
    lemma_span(s, CharClass::Scheme);
    let k = span(s, CharClass::Scheme);
    if k < s.len() {
        let rest = s.skip(k as int + 1);
        lemma_span(rest, CharClass::Slash);
        let slashes = span(rest, CharClass::Slash);
        lemma_span(rest.skip(slashes as int), CharClass::SpecialAuthority);
        if rest.len() >= 2 {
            lemma_span(rest.skip(2), CharClass::Authority);
        }
    }
}

proof fn lemma_visible_text_is_read(text: Seq<char>)
    requires
        forall|i: int| 0 <= i < text.len() ==> #[trigger] text[i] > ' ',
    ensures
        read_on(text) == text,
        trimmed_end(text) == text,
    decreases text.len(),
{
    if text.len() > 0 {
        let earlier = text.drop_last();
        assert forall|i: int| 0 <= i < earlier.len() implies #[trigger] earlier[i] > ' ' by {
            assert(earlier[i] == text[i]);
        }
        lemma_visible_text_is_read(earlier);
        assert(text.last() == text[text.len() - 1]);
        assert(earlier.push(text.last()) =~= text);
    }
}

/// In front of a WebSocket URL's authority stand at most as many slashes as a
/// `u32` counts, and it has at most as many characters as an `i32` counts, if the
/// URL parser is to count its way through; more is not asked.
pub proof fn law_what_is_counted_of_a_web_socket_url(
    secure: bool,
    slashes: Seq<char>,
    authority: Seq<char>,
    rest: Seq<char>,
)
    requires
        forall|i: int|
            0 <= i < slashes.len() ==> (#[trigger] slashes[i] == '/' || slashes[i] == '\\'),
        authority.len() > 0,
        forall|i: int|
            0 <= i < authority.len() ==> #[trigger] authority[i] > ' ' && authority[i] != '/'
                && authority[i] != '\\' && authority[i] != '?' && authority[i] != '#',
        forall|i: int| 0 <= i < rest.len() ==> #[trigger] rest[i] > ' ',
        rest.len() > 0 ==> rest[0] == '/' || rest[0] == '\\' || rest[0] == '?' || rest[0] == '#',
    ensures
        countable(
            (if secure {
                seq!['w', 's', 's', ':']
            } else {
                seq!['w', 's', ':']
            }) + slashes + authority + rest,
        ) <==> slashes.len() <= u32::MAX && authority.len() <= i32::MAX,
{
    let head = if secure {
        seq!['w', 's', 's', ':']
    } else {
        seq!['w', 's', ':']
    };
    let k: nat = if secure {
        3
    } else {
        2
    };
    let text = head + slashes + authority + rest;
    assert forall|i: int| 0 <= i < text.len() implies #[trigger] text[i] > ' ' by {
        if i < head.len() {
            assert(text[i] == head[i]);
        } else if i < head.len() + slashes.len() {
            assert(text[i] == slashes[i - head.len()]);
        } else if i < head.len() + slashes.len() + authority.len() {
            assert(text[i] == authority[i - head.len() - slashes.len()]);
        } else {
            assert(text[i] == rest[i - head.len() - slashes.len() - authority.len()]);
        }
    }
    lemma_visible_text_is_read(text);
    assert forall|i: int| 0 <= i < k implies CharClass::Scheme.has(#[trigger] text[i]) by {
        assert(text[i] == head[i]);
    }
    assert(text[k as int] == head[k as int]);
    lemma_span_is(text, CharClass::Scheme, k);
    reveal_strlit("ws");
    reveal_strlit("WS");
    reveal_strlit("wss");
    reveal_strlit("WSS");
    assert(text[0] == head[0] && text[1] == head[1]);
    assert(secure ==> text[2] == head[2]);
    assert(names_special(text, k)) by {
        if secure {
            assert(is_named(text, k, "wss"@, "WSS"@));
        } else {
            assert(is_named(text, k, "ws"@, "WS"@));
        }
    }
    let behind = text.skip(k as int + 1);
    assert(behind =~= slashes + authority + rest);
    assert forall|i: int| 0 <= i < slashes.len() implies CharClass::Slash.has(
        #[trigger] behind[i],
    ) by {
        assert(behind[i] == slashes[i]);
    }
    assert(behind[slashes.len() as int] == authority[0]);
    lemma_span_is(behind, CharClass::Slash, slashes.len());
    let last = behind.skip(slashes.len() as int);
    assert(last =~= authority + rest);
    assert forall|i: int| 0 <= i < authority.len() implies CharClass::SpecialAuthority.has(
        #[trigger] last[i],
    ) by {
        assert(last[i] == authority[i]);
    }
    if rest.len() > 0 {
        assert(last[authority.len() as int] == rest[0]);
    }
    lemma_span_is(last, CharClass::SpecialAuthority, authority.len());
}

/// Behind a scheme with a longer name than any special one has, an authority is
/// counted exactly behind two slashes, and has at most as many characters as an
/// `i32` counts; without slashes nothing is counted.
pub proof fn law_what_is_counted_of_another_url(
    scheme: Seq<char>,
    authority: Seq<char>,
    rest: Seq<char>,
    opaque: Seq<char>,
)
    requires
        5 < scheme.len() <= u32::MAX,
        forall|i: int| 0 <= i < scheme.len() ==> 'a' <= #[trigger] scheme[i] <= 'z',
        forall|i: int|
            0 <= i < authority.len() ==> #[trigger] authority[i] > ' ' && authority[i] != '/'
                && authority[i] != '?' && authority[i] != '#',
        forall|i: int| 0 <= i < rest.len() ==> #[trigger] rest[i] > ' ',
        rest.len() > 0 ==> rest[0] == '/' || rest[0] == '?' || rest[0] == '#',
        forall|i: int| 0 <= i < opaque.len() ==> #[trigger] opaque[i] > ' ',
        opaque.len() > 0 ==> opaque[0] != '/',
    ensures
        countable(scheme + seq![':', '/', '/'] + authority + rest) <==> authority.len() <= i32::MAX,
        countable(scheme + seq![':'] + opaque),
{
    let k = scheme.len();
    let marks = seq![':', '/', '/'];
    let text = scheme + marks + authority + rest;
    assert forall|i: int| 0 <= i < text.len() implies #[trigger] text[i] > ' ' by {
        if i < k {
            assert(text[i] == scheme[i]);
        } else if i < k + 3 {
            assert(text[i] == marks[i - k]);
        } else if i < k + 3 + authority.len() {
            assert(text[i] == authority[i - k - 3]);
        } else {
            assert(text[i] == rest[i - k - 3 - authority.len()]);
        }
    }
    lemma_visible_text_is_read(text);
    assert(text.take(k as int) =~= scheme);
    assert(text[k as int] == marks[0]);
    lemma_long_scheme(text, scheme);
    let behind = text.skip(k as int + 1);
    assert(behind[0] == marks[1] && behind[1] == marks[2]);
    let last = behind.skip(2);
    assert(last =~= authority + rest);
    assert forall|i: int| 0 <= i < authority.len() implies CharClass::Authority.has(
        #[trigger] last[i],
    ) by {
        assert(last[i] == authority[i]);
    }
    if rest.len() > 0 {
        assert(last[authority.len() as int] == rest[0]);
    }
    lemma_span_is(last, CharClass::Authority, authority.len());
    let plain = scheme + seq![':'] + opaque;
    assert forall|i: int| 0 <= i < plain.len() implies #[trigger] plain[i] > ' ' by {
        if i < k {
            assert(plain[i] == scheme[i]);
        } else if i > k {
            assert(plain[i] == opaque[i - k - 1]);
        }
    }
    lemma_visible_text_is_read(plain);
    assert(plain.take(k as int) =~= scheme);
    lemma_long_scheme(plain, scheme);
    assert(plain.skip(k as int + 1) =~= opaque);
}

proof fn lemma_long_scheme(text: Seq<char>, scheme: Seq<char>)
    requires
        5 < scheme.len() < text.len(),
        forall|i: int| 0 <= i < scheme.len() ==> 'a' <= #[trigger] scheme[i] <= 'z',
        text.take(scheme.len() as int) == scheme,
        text[scheme.len() as int] == ':',
    ensures
        span(text, CharClass::Scheme) == scheme.len(),
        is_letter(text[0]),
        !names_special(text, scheme.len()),
        !is_named(text, scheme.len(), "file"@, "FILE"@),
{
    let k = scheme.len();
    assert forall|i: int| 0 <= i < k implies CharClass::Scheme.has(#[trigger] text[i]) by {
        assert(text.take(k as int)[i] == text[i]);
    }
    assert(text.take(k as int)[0] == text[0]);
    lemma_span_is(text, CharClass::Scheme, k);
    reveal_strlit("ws");
    reveal_strlit("wss");
    reveal_strlit("http");
    reveal_strlit("https");
    reveal_strlit("ftp");
    reveal_strlit("file");
}

/// A serialised URL is taken apart where its query and its fragment start: of a
/// front without question mark and hash, a query without hash and a fragment, the
/// query and the fragment are found, and none where there is none.
pub proof fn law_query_and_fragment_are_found(
    url: UrlView,
    front: Seq<char>,
    query: Option<Seq<char>>,
    fragment: Option<Seq<char>>,
)
    requires
        forall|i: int| 0 <= i < front.len() ==> #[trigger] front[i] != '?' && front[i] != '#',
        query matches Some(q) ==> forall|i: int| 0 <= i < q.len() ==> #[trigger] q[i] != '#',
        url.href == front + (match query {
            Some(q) => seq!['?'] + q,
            None => Seq::empty(),
        }) + (match fragment {
            Some(f) => seq!['#'] + f,
            None => Seq::empty(),
        }),
    ensures
        url.tail_start() == front.len(),
        url.query() == query,
        url.fragment() == fragment,
        url.has_tail() <==> query is Some || fragment is Some,
        url.tail_fits() <==> front.len() != u32::MAX || query is None && fragment is None,
{
    let href = url.href;
    let n = front.len() as int;
    assert forall|i: int| 0 <= i < n implies CharClass::BeforeTail.has(#[trigger] href[i]) by {
        assert(href[i] == front[i]);
    }
    if query is Some || fragment is Some {
        assert(href[n] == '?' || href[n] == '#');
    }
    lemma_span_is(href, CharClass::BeforeTail, front.len());
    let m = n + match query {
        Some(q) => q.len() + 1,
        None => 0,
    };
    assert forall|i: int| 0 <= i < m implies CharClass::BeforeFragment.has(#[trigger] href[i]) by {
        if i < n {
            assert(href[i] == front[i]);
        } else if i > n {
            assert(href[i] == query->0[i - n - 1]);
        }
    }
    if fragment is Some {
        assert(href[m] == '#');
        assert(href.skip(m + 1) =~= fragment->0);
    }
    lemma_span_is(href, CharClass::BeforeFragment, m as nat);
    if query is Some {
        let rest = href.skip(n + 1);
        let q = query->0;
        assert forall|i: int| 0 <= i < q.len() implies CharClass::BeforeFragment.has(
            #[trigger] rest[i],
        ) by {
            assert(rest[i] == q[i]);
        }
        if fragment is Some {
            assert(rest[q.len() as int] == '#');
        }
        lemma_span_is(rest, CharClass::BeforeFragment, q.len());
        assert(rest.take(q.len() as int) =~= q);
    }
}

/// A URL without query and fragment ends with its path.
pub(crate) proof fn lemma_no_tail(url: UrlView)
    requires
        !url.has_tail(),
    ensures
        url.tail_start() == url.href.len(),
{
    lemma_span(url.href, CharClass::BeforeTail);
    lemma_span(url.href, CharClass::BeforeFragment);
}

/// Counts the characters of one kind at `from` and behind it.
fn span_from(s: &Vec<char>, from: usize, class: CharClass) -> (n: usize)
    requires
        from <= s@.len(),
    ensures
        n == span(s@.skip(from as int), class),
        from + n <= s@.len(),
{
    let mut end: usize = from;
    while end < s.len() && class.includes(s[end])
        invariant
            from <= end <= s@.len(),
            forall|i: int| from <= i < end ==> class.has(#[trigger] s@[i]),
        ensures
            end < s@.len() ==> !class.has(s@[end as int]),
        decreases s@.len() - end,
    {
        end = end + 1;
    }
    proof {
        let rest = s@.skip(from as int);
        assert forall|i: int| 0 <= i < end - from implies class.has(#[trigger] rest[i]) by {
            assert(rest[i] == s@[from + i]);
        }
        lemma_span_is(rest, class, (end - from) as nat);
    }
    end - from
}

/// What the URL parser reads of a text.
fn read_chars(text: &str) -> (r: Vec<char>)
    ensures
        r@ == trimmed_end(read_on(text@)),
{
    let mut kept: Vec<char> = Vec::new();
    for c in it: text.chars()
        invariant
            it.seq() == text@,
            kept@ == read_on(text@.take(it.index() as int)),
    {
        proof {
            let n = it.index() as int;
            assert(text@.take(n + 1).drop_last() =~= text@.take(n));
            assert(text@.take(n + 1).last() == c);
        }
        if c != '\t' && c != '\n' && c != '\r' && (kept.len() > 0 || c > ' ') {
            kept.push(c);
        }
    }
    assert(text@.take(text@.len() as int) =~= text@);
    while kept.len() > 0 && kept[kept.len() - 1] <= ' '
        invariant
            trimmed_end(kept@) == trimmed_end(read_on(text@)),
        ensures
            kept@.len() == 0 || kept@.last() > ' ',
        decreases kept@.len(),
    {
        let ghost before = kept@;
        let _ = kept.pop();
        assert(kept@ =~= before.drop_last());
    }
    kept
}

/// Tests whether the first `k` characters are a scheme's name.
fn has_name(s: &Vec<char>, k: usize, lower: &str, upper: &str) -> (r: bool)
    requires
        k <= s@.len(),
        lower@.len() == upper@.len(),
    ensures
        r == is_named(s@, k as nat, lower@, upper@),
{
    if k != lower.unicode_len() {
        return false;
    }
    let mut i: usize = 0;
    while i < k
        invariant
            i <= k <= s@.len(),
            k == lower@.len(),
            k == upper@.len(),
            forall|j: int| 0 <= j < i ==> (#[trigger] s@[j] == lower@[j] || s@[j] == upper@[j]),
        decreases k - i,
    {
        if s[i] != lower.get_char(i) && s[i] != upper.get_char(i) {
            return false;
        }
        i = i + 1;
    }
    true
}

/// Tests whether the URL parser's counters are wide enough behind the scheme.
fn do_counts_fit(s: &Vec<char>, k: usize) -> (r: bool)
    requires
        k < s@.len(),
    ensures
        r == counts_fit(s@, k as nat),
{
    proof {
        reveal_strlit("ws");
        reveal_strlit("WS");
        reveal_strlit("wss");
        reveal_strlit("WSS");
        reveal_strlit("http");
        reveal_strlit("HTTP");
        reveal_strlit("https");
        reveal_strlit("HTTPS");
        reveal_strlit("ftp");
        reveal_strlit("FTP");
        reveal_strlit("file");
        reveal_strlit("FILE");
    }
    let len: usize = s.len();
    let start: usize = k + 1;
    let ghost rest = s@.skip(start as int);
    if has_name(s, k, "ws", "WS") || has_name(s, k, "wss", "WSS") || has_name(s, k, "http", "HTTP")
        || has_name(s, k, "https", "HTTPS") || has_name(s, k, "ftp", "FTP") {
        let slashes: usize = span_from(s, start, CharClass::Slash);
        assert(rest.skip(slashes as int) =~= s@.skip(start + slashes));
        slashes as u64 <= u32::MAX as u64 && span_from(
            s,
            start + slashes,
            CharClass::SpecialAuthority,
        ) as u64 <= i32::MAX as u64
    } else if has_name(s, k, "file", "FILE") {
        true
    } else if len - start >= 2 && s[start] == '/' && s[start + 1] == '/' {
        assert(rest.skip(2) =~= s@.skip(start + 2));
        span_from(s, start + 2, CharClass::Authority) as u64 <= i32::MAX as u64
    } else if len > start && s[start] == '/' {
        k as u64 <= u32::MAX as u64 - 3 || k as u64 == u32::MAX as u64
    } else {
        true
    }
}

/// Tests whether the URL parser can count its way through a text.
pub(crate) fn is_countable(text: &str) -> (r: bool)
    ensures
        r == countable(text@),
{
    let s: Vec<char> = read_chars(text);
    let k: usize = span_from(&s, 0, CharClass::Scheme);
    assert(s@.skip(0) =~= s@);
    if k == 0 || k == s.len() || s[k] != ':' || k as u64 > u32::MAX as u64 {
        return true;
    }
    let c: char = s[0];
    if !(('a' <= c && c <= 'z') || ('A' <= c && c <= 'Z')) {
        return true;
    }
    do_counts_fit(&s, k)
}

/// Tests whether what follows the path of a URL can be read.
pub(crate) fn does_tail_fit(url: &UrlParts) -> (r: bool)
    ensures
        r == url@.tail_fits(),
{
    let href: &str = url.href.as_str();
    let len: usize = href.unicode_len();
    let mut n: usize = 0;
    for c in it: href.chars()
        invariant
            it.seq() == href@,
            href@ == url@.href,
            len == href@.len(),
            n == it.index(),
            forall|i: int| 0 <= i < n ==> CharClass::BeforeTail.has(#[trigger] href@[i]),
    {
        assert(c == href@[n as int]);
        if !CharClass::BeforeTail.includes(c) {
            proof {
                lemma_span_is(href@, CharClass::BeforeTail, n as nat);
            }
            return n as u64 != u32::MAX as u64;
        }
        n = n + 1;
    }
    proof {
        lemma_span_is(href@, CharClass::BeforeTail, href@.len());
    }
    true
}

/// `url::Url::parse`, with the accessors `as_str`, `scheme`, `username`,
/// `password` and `path` to read what it found, and `ParseError`'s `Display` for
/// its complaint.
///
/// Of a WebSocket URL the contract says two more things: its parts stand in the
/// serialised text as `laid_out` has them, since the parser encodes a question
/// mark or a hash wherever it does not start the query or the fragment, and its
/// path is normal, since the parser encodes and resolves the path of every URL of
/// that kind.
#[verifier::external_body]
pub(crate) fn parse_url(text: &str) -> (r: Result<UrlParts, String>)
    requires
        countable(text@),
    ensures
        parse_view(r) == url_parsed(text@),
        r matches Ok(url) ==> url@.is_web_socket() ==> url@.laid_out() && normal_path(url@.path),
{
    let url = Url::parse(text).map_err(|error| error.to_string())?;
    Ok(UrlParts {
        href: url.as_str().to_string(),
        scheme: url.scheme().to_string(),
        username: url.username().to_string(),
        password: url.password().map(|part| part.to_string()),
        path: url.path().to_string(),
    })
}

/// `url::Url::query` of the WebSocket URL that `text` parses as. It panics where
/// the offset behind the question mark is no `u32`.
#[verifier::external_body]
fn url_query(text: &str) -> (r: Option<String>)
    requires
        countable(text@),
        url_parsed(text@) is Ok,
        url_parsed(text@)->Ok_0.is_web_socket(),
        url_parsed(text@)->Ok_0.tail_fits(),
    ensures
        text_of(r) == url_parsed(text@)->Ok_0.query(),
{
    Url::parse(text).ok()?.query().map(|part| part.to_string())
}

/// `url::Url::fragment` of the WebSocket URL that `text` parses as, which has no
/// query. It panics where the offset behind the hash is no `u32`.
#[verifier::external_body]
fn url_fragment(text: &str) -> (r: Option<String>)
    requires
        countable(text@),
        url_parsed(text@) is Ok,
        url_parsed(text@)->Ok_0.is_web_socket(),
        url_parsed(text@)->Ok_0.query() is None,
        url_parsed(text@)->Ok_0.tail_fits(),
    ensures
        text_of(r) == url_parsed(text@)->Ok_0.fragment(),
{
    Url::parse(text).ok()?.fragment().map(|part| part.to_string())
}

/// Tests whether anything follows the path of the WebSocket URL that `text`
/// parses as.
pub(crate) fn reads_tail(text: &str) -> (r: bool)
    requires
        countable(text@),
        url_parsed(text@) is Ok,
        url_parsed(text@)->Ok_0.is_web_socket(),
        url_parsed(text@)->Ok_0.tail_fits(),
    ensures
        r == url_parsed(text@)->Ok_0.has_tail(),
{
    url_query(text).is_some() || url_fragment(text).is_some()
}

/// `url::Url::set_scheme` and `url::Url::set_path` on the URL that `text` parses
/// as, one after the other, and the serialised text after them. The scheme goes
/// from one of a WebSocket to the HTTP scheme that goes with it: both are special
/// schemes with the same default port, so the setter accepts the change and
/// replaces the scheme alone. The path is normal, and stored as it is given. The
/// URL has neither query nor fragment behind its path. The setters panic where
/// the text outgrows the URL type's 32-bit offsets; it is ASCII, so its
/// characters are its bytes.
#[verifier::external_body]
pub(crate) fn rewrite_url(text: &str, scheme: &str, path: &str) -> (r: Option<String>)
    requires
        countable(text@),
        url_parsed(text@) is Ok,
        http_scheme(url_parsed(text@)->Ok_0.scheme) == Some(scheme@),
        !url_parsed(text@)->Ok_0.has_tail(),
        normal_path(path@),
        url_parsed(text@)->Ok_0.with_scheme(scheme@).href.len() <= u32::MAX,
        url_parsed(text@)->Ok_0.with_scheme(scheme@).href_with_path(path@).len() <= u32::MAX,
    ensures
        r is Some,
        r->0@ == url_parsed(text@)->Ok_0.with_scheme(scheme@).href_with_path(path@),
{
    let mut url = Url::parse(text).ok()?;
    url.set_scheme(scheme).ok()?;
    url.set_path(path);
    Some(url.as_str().to_string())
}

} // verus!
