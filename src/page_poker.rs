use vstd::prelude::*;
use vstd::string::*;

verus! {

/// What to report about a fetched page.
#[derive(Clone, Copy, Debug, PartialEq, Eq, Structural)]
pub enum Mode {
    Title,
    DownloadTime,
    DownloadSize,
}

impl Mode {
    /// The name shown for the mode.
    pub open spec fn spec_label(self) -> Seq<char> {
        match self {
            Mode::Title => "Title"@,
            Mode::DownloadTime => "Download Time"@,
            Mode::DownloadSize => "Download Size"@,
        }
    }

    /// The name shown for the mode.
    pub fn label(&self) -> (r: &'static str)
        ensures
            r@ == self.spec_label(),
    {
        match self {
            Mode::Title => "Title",
            Mode::DownloadTime => "Download Time",
            Mode::DownloadSize => "Download Size",
        }
    }

    /// Every mode, in the order offered to the user.
    pub fn all() -> (r: Vec<Mode>)
        ensures
            r@ == seq![Mode::Title, Mode::DownloadTime, Mode::DownloadSize],
    {
        vec![Mode::Title, Mode::DownloadTime, Mode::DownloadSize]
    }
}

/// The characters of a string, one by one.
pub fn chars_of(s: &str) -> (r: Vec<char>)
    ensures
        r@ == s@,
{
    let mut v: Vec<char> = Vec::new();
    for c in it: s.chars()
        invariant
            v@ == it.seq().take(it.index() as int),
    {
        v.push(c);
    }
    assert(v@ =~= s@);
    v
}

/// Whether `n` stands in `h` starting at position `i`.
pub open spec fn occurs_at(h: Seq<char>, n: Seq<char>, i: int) -> bool {
    0 <= i && i + n.len() <= h.len() && h.subrange(i, i + n.len()) == n
}

/// Whether `i` is the first position at which `n` stands in `h`.
pub open spec fn first_at(h: Seq<char>, n: Seq<char>, i: int) -> bool {
    occurs_at(h, n, i) && forall|j: int| 0 <= j < i ==> !occurs_at(h, n, j)
}

/// The first position of `n` in `h`, if it occurs at all.
pub open spec fn first_occurrence(h: Seq<char>, n: Seq<char>) -> Option<int> {
    if exists|i: int| first_at(h, n, i) {
        Some(choose|i: int| first_at(h, n, i))
    } else {
        None
    }
}

/// There is at most one first position.
pub proof fn lemma_first_at_unique(h: Seq<char>, n: Seq<char>, i: int, k: int)
    requires
        first_at(h, n, i),
        first_at(h, n, k),
    ensures
        i == k,
{
    if i < k {
        assert(!occurs_at(h, n, i));
    } else if k < i {
        assert(!occurs_at(h, n, k));
    }
}

/// The first position of `needle` in `hay`, or `None` when it does not occur.
pub fn find_chars(hay: &Vec<char>, needle: &Vec<char>) -> (r: Option<usize>)
    ensures
        r matches Some(i) ==> first_at(hay@, needle@, i as int),
        r is None ==> forall|j: int| !occurs_at(hay@, needle@, j),
        r matches Some(i) ==> first_occurrence(hay@, needle@) == Some(i as int),
        r is None ==> first_occurrence(hay@, needle@) is None,
{
    let n = needle.len();
    if n > hay.len() {
        assert forall|j: int| !occurs_at(hay@, needle@, j) by {}
        return None;
    }
    let last = hay.len() - n;
    let mut i: usize = 0;
    while i <= last
        invariant
            n == needle.len(),
            last == hay.len() - n,
            forall|j: int| 0 <= j < i ==> !occurs_at(hay@, needle@, j),
        decreases last + 1 - i,
    {
        let mut k: usize = 0;
        let mut same = true;
        while k < n
            invariant
                n == needle.len(),
                i <= last,
                last == hay.len() - n,
                k <= n,
                same <==> forall|m: int| 0 <= m < k ==> hay@[i + m] == needle@[m],
            decreases n - k,
        {
            if hay[i + k] != needle[k] {
                same = false;
            }
            k = k + 1;
        }
        if same {
            assert(hay@.subrange(i as int, i + n) =~= needle@);
            proof {
                assert(first_at(hay@, needle@, i as int));
                lemma_first_at_unique(
                    hay@,
                    needle@,
                    i as int,
                    choose|j: int| first_at(hay@, needle@, j),
                );
            }
            return Some(i);
        }
        assert(!occurs_at(hay@, needle@, i as int)) by {
            if occurs_at(hay@, needle@, i as int) {
                let m = choose|m: int| 0 <= m < n && hay@[i + m] != needle@[m];
                assert(hay@.subrange(i as int, i + n)[m] == hay@[i + m]);
            }
        }
        if i == last {
            assert forall|j: int| !occurs_at(hay@, needle@, j) by {}
            return None;
        }
        i = i + 1;
    }
    None
}

/// Whether `p` begins `h`.
pub open spec fn has_prefix(h: Seq<char>, p: Seq<char>) -> bool {
    p.len() <= h.len() && h.subrange(0, p.len() as int) == p
}

fn starts_with(h: &Vec<char>, p: &Vec<char>) -> (r: bool)
    ensures
        r == has_prefix(h@, p@),
{
    if p.len() > h.len() {
        return false;
    }
    let mut k: usize = 0;
    while k < p.len()
        invariant
            p.len() <= h.len(),
            k <= p.len(),
            forall|m: int| 0 <= m < k ==> h@[m] == p@[m],
        decreases p.len() - k,
    {
        if h[k] != p[k] {
            assert(h@.subrange(0, p.len() as int)[k as int] != p@[k as int]);
            return false;
        }
        k = k + 1;
    }
    assert(h@.subrange(0, p.len() as int) =~= p@);
    true
}

pub open spec fn http_scheme() -> Seq<char> {
    seq!['h', 't', 't', 'p', ':', '/', '/']
}

pub open spec fn https_scheme() -> Seq<char> {
    seq!['h', 't', 't', 'p', 's', ':', '/', '/']
}

/// The address to request: `url` itself when it names its scheme, else
/// `url` behind `https://` or `http://` as `secure` asks.
pub open spec fn spec_full_url(url: Seq<char>, secure: bool) -> Seq<char> {
    if has_prefix(url, http_scheme()) || has_prefix(url, https_scheme()) {
        url
    } else if secure {
        https_scheme() + url
    } else {
        http_scheme() + url
    }
}

/// The address to request for what the user typed.
pub fn full_url(url: &str, secure: bool) -> (r: String)
    ensures
        r@ == spec_full_url(url@, secure),
{
    let cs = chars_of(url);
    let http = vec!['h', 't', 't', 'p', ':', '/', '/'];
    let https = vec!['h', 't', 't', 'p', 's', ':', '/', '/'];
    assert(http@ == http_scheme());
    assert(https@ == https_scheme());
    if starts_with(&cs, &http) || starts_with(&cs, &https) {
        return String::from_str(url);
    }
    let mut r = if secure {
        String::from_str("https://")
    } else {
        String::from_str("http://")
    };
    proof {
        reveal_strlit("https://");
        reveal_strlit("http://");
    }
    r.append(url);
    r
}

pub open spec fn open_tag() -> Seq<char> {
    seq!['<', 't', 'i', 't', 'l', 'e', '>']
}

pub open spec fn close_tag() -> Seq<char> {
    seq!['<', '/', 't', 'i', 't', 'l', 'e', '>']
}

/// Where the page title stands: between the end of the first `<title>` and
/// the first `</title>`, when both occur and in that order.
pub open spec fn title_span(body: Seq<char>) -> Option<(int, int)> {
    match (first_occurrence(body, open_tag()), first_occurrence(body, close_tag())) {
        (Some(s), Some(e)) => if s + open_tag().len() <= e {
            Some((s + open_tag().len(), e))
        } else {
            None
        },
        _ => None,
    }
}

/// Name for what `str::trim` returns: the text without leading and trailing
/// white space.
pub uninterp spec fn trimmed(s: Seq<char>) -> Seq<char>;

/// Relies on str::trim: the text without leading and trailing white space.
#[verifier::external_body]
fn trim_text(s: &str) -> (r: String)
    ensures
        r@ == trimmed(s@),
{
    s.trim().to_string()
}

/// The report for a page fetched to read its title.
pub open spec fn spec_title_report(body: Seq<char>) -> Seq<char> {
    match title_span(body) {
        Some((a, e)) => "Title: "@ + trimmed(body.subrange(a, e)),
        None => "No <title> found"@,
    }
}

/// Reports the title of a page: the trimmed text between the first `<title>`
/// and the first `</title>`, or that there is none.
pub fn title_report(body: &str) -> (r: String)
    ensures
        r@ == spec_title_report(body@),
{
    let cs = chars_of(body);
    let open = vec!['<', 't', 'i', 't', 'l', 'e', '>'];
    let close = vec!['<', '/', 't', 'i', 't', 'l', 'e', '>'];
    assert(open@ == open_tag());
    assert(close@ == close_tag());
    let s = find_chars(&cs, &open);
    let e = find_chars(&cs, &close);
    match (s, e) {
        (Some(s), Some(e)) => {
            if s <= e && e - s >= 7 {
                let t = trim_text(body.substring_char(s + 7, e));
                let mut r = String::from_str("Title: ");
                r.append(t.as_str());
                return r;
            }
        },
        _ => {},
    }
    String::from_str("No <title> found")
}

/// Name for what `humansize::format_size` returns for a byte count with
/// decimal (SI) units, such as "1.50 kB".
pub uninterp spec fn decimal_size(bytes: nat) -> Seq<char>;

/// Relies on humansize::format_size with the DECIMAL options: a byte count
/// written with SI units.
#[verifier::external_body]
fn format_decimal_size(bytes: usize) -> (r: String)
    ensures
        r@ == decimal_size(bytes as nat),
{
    humansize::format_size(bytes, humansize::DECIMAL)
}

/// Reports the size of a downloaded page.
pub fn size_report(bytes: usize) -> (r: String)
    ensures
        r@ == "Size: "@ + decimal_size(bytes as nat),
{
    let t = format_decimal_size(bytes);
    let mut r = String::from_str("Size: ");
    r.append(t.as_str());
    r
}

/// Name for what `{:?}` writes for a string: the text in double quotes, with
/// quotes, backslashes and control characters escaped.
pub uninterp spec fn debug_quoted(s: Seq<char>) -> Seq<char>;

/// Relies on the `Debug` formatting of `str`: the text quoted and escaped.
#[verifier::external_body]
fn debug_text(s: &str) -> (r: String)
    ensures
        r@ == debug_quoted(s@),
{
    format!("{:?}", s)
}

/// What the user asked for and what came back.
pub struct UrlAnalyzer {
    url: String,
    secure: bool,
    mode: Mode,
    result: String,
    loading: bool,
}

/// The URL analyser of the interactive slide, with a log of the messages
/// it handled.
pub struct PagePoker {
    model: UrlAnalyzer,
    message_log: Vec<String>,
}

/// What the user or a finished request reports.
#[derive(Clone, Debug)]
pub enum Message {
    UrlChanged(String),
    SecureChanged(bool),
    ModeChanged(Mode),
    /// The user asked for the page.
    Action,
    /// A request finished with this report.
    Result(String),
}

/// Work for the host after an update.
#[derive(Clone, Debug)]
pub enum Command {
    Nothing,
    /// Fetch the page and send back `Message::Result` with the report.
    Fetch { url: String, secure: bool, mode: Mode },
}

/// The abstract state of a `PagePoker`.
pub struct PagePokerView {
    pub url: Seq<char>,
    pub secure: bool,
    pub mode: Mode,
    pub result: Seq<char>,
    pub loading: bool,
    pub log: Seq<Seq<char>>,
}

impl View for PagePoker {
    type V = PagePokerView;

    closed spec fn view(&self) -> PagePokerView {
        PagePokerView {
            url: self.model.url@,
            secure: self.model.secure,
            mode: self.model.mode,
            result: self.model.result@,
            loading: self.model.loading,
            log: self.message_log@.map_values(|e: String| e@),
        }
    }
}

/// The log line for a message.
pub open spec fn log_entry(message: Message) -> Seq<char> {
    match message {
        Message::UrlChanged(url) => "UrlChanged("@ + debug_quoted(url@) + ")"@,
        Message::SecureChanged(b) => if b {
            "SecureChanged(true)"@
        } else {
            "SecureChanged(false)"@
        },
        Message::ModeChanged(m) => "ModeChanged("@ + m.spec_label() + ")"@,
        Message::Action => "Action"@,
        Message::Result(r) => "Result("@ + debug_quoted(r@) + ")"@,
    }
}

impl PagePokerView {
    /// The state after one message.
    pub open spec fn next(self, message: Message) -> PagePokerView {
        let logged = PagePokerView { log: self.log.push(log_entry(message)), ..self };
        match message {
            Message::UrlChanged(url) => PagePokerView { url: url@, ..logged },
            Message::SecureChanged(b) => PagePokerView { secure: b, ..logged },
            Message::ModeChanged(m) => PagePokerView { mode: m, ..logged },
            Message::Action => if self.url.len() == 0 {
                PagePokerView { result: "Please enter a URL"@, ..logged }
            } else {
                PagePokerView { loading: true, result: Seq::empty(), ..logged }
            },
            Message::Result(r) => PagePokerView { loading: false, result: r@, ..logged },
        }
    }

    /// Whether a message starts a request.
    pub open spec fn fetches(self, message: Message) -> bool {
        message is Action && self.url.len() > 0
    }
}

impl PagePoker {
    /// Empty address, plain HTTP, title mode, nothing logged.
    pub fn new() -> (r: PagePoker)
        ensures
            r@.url.len() == 0,
            !r@.secure,
            r@.mode == Mode::Title,
            r@.result.len() == 0,
            !r@.loading,
            r@.log.len() == 0,
    {
        PagePoker {
            model: UrlAnalyzer {
                url: String::new(),
                secure: false,
                mode: Mode::Title,
                result: String::new(),
                loading: false,
            },
            message_log: Vec::new(),
        }
    }

    fn log_message(&mut self, entry: String)
        ensures
            final(self)@ == (PagePokerView { log: old(self)@.log.push(entry@), ..old(self)@ }),
    {
        self.message_log.push(entry);
        proof {
            assert(self@.log =~= old(self)@.log.push(entry@));
        }
    }

    /// Logs the message, then applies it. Asking for a page with an empty
    /// address reports an error; otherwise the request is handed to the host.
    pub fn update(&mut self, message: Message) -> (r: Command)
        ensures
            final(self)@ == old(self)@.next(message),
            r is Fetch <==> old(self)@.fetches(message),
            r matches Command::Fetch { url, secure, mode } ==> url@ == old(self)@.url && secure
                == old(self)@.secure && mode == old(self)@.mode,
    {
        match message {
            Message::UrlChanged(url) => {
                let q = debug_text(url.as_str());
                let mut e = String::from_str("UrlChanged(");
                e.append(q.as_str());
                e.append(")");
                self.log_message(e);
                self.model.url = url;
                Command::Nothing
            },
            Message::SecureChanged(secure) => {
                let e = if secure {
                    String::from_str("SecureChanged(true)")
                } else {
                    String::from_str("SecureChanged(false)")
                };
                self.log_message(e);
                self.model.secure = secure;
                Command::Nothing
            },
            Message::ModeChanged(mode) => {
                let mut e = String::from_str("ModeChanged(");
                e.append(mode.label());
                e.append(")");
                self.log_message(e);
                self.model.mode = mode;
                Command::Nothing
            },
            Message::Action => {
                self.log_message(String::from_str("Action"));
                if self.model.url.as_str().is_empty() {
                    self.model.result = String::from_str("Please enter a URL");
                    Command::Nothing
                } else {
                    self.model.loading = true;
                    self.model.result = String::new();
                    Command::Fetch {
                        url: self.model.url.clone(),
                        secure: self.model.secure,
                        mode: self.model.mode,
                    }
                }
            },
            Message::Result(result) => {
                let q = debug_text(result.as_str());
                let mut e = String::from_str("Result(");
                e.append(q.as_str());
                e.append(")");
                self.log_message(e);
                self.model.loading = false;
                self.model.result = result;
                Command::Nothing
            },
        }
    }

    pub fn url(&self) -> (r: &str)
        ensures
            r@ == self@.url,
    {
        self.model.url.as_str()
    }

    pub fn secure(&self) -> (r: bool)
        ensures
            r == self@.secure,
    {
        self.model.secure
    }

    pub fn mode(&self) -> (r: Mode)
        ensures
            r == self@.mode,
    {
        self.model.mode
    }

    pub fn result(&self) -> (r: &str)
        ensures
            r@ == self@.result,
    {
        self.model.result.as_str()
    }

    pub fn is_loading(&self) -> (r: bool)
        ensures
            r == self@.loading,
    {
        self.model.loading
    }

    /// The log lines, oldest first.
    pub fn message_log(&self) -> (r: &[String])
        ensures
            r@.map_values(|e: String| e@) == self@.log,
    {
        self.message_log.as_slice()
    }
}

} // verus!
