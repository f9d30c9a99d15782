//! The window session: the paths staged at start-up, delivered once, and the
//! counter that gives each window its label.
use vstd::prelude::*;
use crate::files::{file_name, file_name_of, name_or};
use crate::url::{content_url, content_url_spec, is_ascii_text, encode_ascii};

verus! {

/// A decimal digit as a character.
pub open spec fn digit_char(d: nat) -> char {
    seq!['0', '1', '2', '3', '4', '5', '6', '7', '8', '9'][d as int]
}

/// The decimal form of a number, without leading zeros.
pub open spec fn decimal(n: nat) -> Seq<char>
    decreases n,
{
    if n < 10 {
        seq![digit_char(n)]
    } else {
        decimal(n / 10).push(digit_char(n % 10))
    }
}

/// The label of the window with the given number.
pub open spec fn window_label(id: nat) -> Seq<char> {
    "curio-"@ + decimal(id)
}

/// The title of a window for an optional file path: the final component of
/// the path, or "Curio".
pub open spec fn window_title(file_path: Option<Seq<char>>) -> Seq<char> {
    match file_path {
        Some(p) => match file_name_of(p) {
            Some(n) => n,
            None => "Curio"@,
        },
        None => "Curio"@,
    }
}

/// The number that a new session gives its first window.
pub const FIRST_WINDOW_ID: u64 = 1;

/// The initial width of a window.
pub const INITIAL_WIDTH: u32 = 900;

/// The initial height of a window.
pub const INITIAL_HEIGHT: u32 = 700;

/// The least width of a window.
pub const MIN_WIDTH: u32 = 400;

/// The least height of a window.
pub const MIN_HEIGHT: u32 = 300;

fn digit_str(d: u64) -> (r: &'static str)
    requires
        d < 10,
    ensures
        r@ == seq![digit_char(d as nat)],
{
    proof {
        reveal_strlit("0");
        reveal_strlit("1");
        reveal_strlit("2");
        reveal_strlit("3");
        reveal_strlit("4");
        reveal_strlit("5");
        reveal_strlit("6");
        reveal_strlit("7");
        reveal_strlit("8");
        reveal_strlit("9");
    }
    let r = if d == 0 {
        "0"
    } else if d == 1 {
        "1"
    } else if d == 2 {
        "2"
    } else if d == 3 {
        "3"
    } else if d == 4 {
        "4"
    } else if d == 5 {
        "5"
    } else if d == 6 {
        "6"
    } else if d == 7 {
        "7"
    } else if d == 8 {
        "8"
    } else {
        "9"
    };
    assert(r@ =~= seq![digit_char(d as nat)]);
    r
}

/// Writes a number in decimal.
pub fn decimal_string(n: u64) -> (r: String)
    ensures
        r@ == decimal(n as nat),
    decreases n,
{
    if n < 10 {
        String::from_str(digit_str(n))
    } else {
        let mut s = decimal_string(n / 10);
        s.append(digit_str(n % 10));
        s
    }
}

/// The label of the window with the given number: `curio-<number>`.
pub fn label_for(id: u64) -> (r: String)
    ensures
        r@ == window_label(id as nat),
{
    let mut s = String::from_str("curio-");
    let d = decimal_string(id);
    s.append(d.as_str());
    s
}

/// Everything the host needs to open one window.
pub struct WindowPlan {
    /// The label that tells this window apart from every other.
    pub label: String,
    /// The window's title.
    pub title: String,
    /// The URL of the page the window loads.
    pub url: String,
    /// The initial size.
    pub width: u32,
    pub height: u32,
    /// The size below which the window cannot be made.
    pub min_width: u32,
    pub min_height: u32,
}

/// What the session holds, as values.
pub struct SessionState {
    /// The number of the next window.
    pub next_id: nat,
    /// The paths still waiting to be delivered.
    pub staged: Seq<Seq<char>>,
}

/// Delivering the staged paths: they are returned, and none are left.
pub open spec fn take_step(s: SessionState) -> (SessionState, Seq<Seq<char>>) {
    (SessionState { next_id: s.next_id, staged: seq![] }, s.staged)
}

/// Opening a window: it gets the next number, and the counter moves on.
pub open spec fn open_step(s: SessionState) -> (SessionState, nat) {
    (SessionState { next_id: s.next_id + 1, staged: s.staged }, s.next_id)
}

/// The state of one running application: the window counter and the paths
/// staged for delivery to the interface.
pub struct Session {
    next_id: u64,
    staged: Vec<String>,
}

impl View for Session {
    type V = SessionState;

    closed spec fn view(&self) -> SessionState {
        SessionState { next_id: self.next_id as nat, staged: self.staged@.map_values(|s: String| s@) }
    }
}

impl Session {
    /// A session whose staged paths are the given ones; its first window gets
    /// number 1.
    pub fn new(staged: Vec<String>) -> (r: Session)
        ensures
            r@.next_id == FIRST_WINDOW_ID as nat,
            r@.staged == staged@.map_values(|s: String| s@),
    {
        Session { next_id: FIRST_WINDOW_ID, staged }
    }

    /// The number the next window will get.
    pub fn next_window_id(&self) -> (r: u64)
        ensures
            r as nat == self@.next_id,
    {
        self.next_id
    }

    /// Hands out the staged paths and empties the list, so that each is
    /// delivered once; every later call returns an empty list.
    pub fn take_staged(&mut self) -> (r: Vec<String>)
        ensures
            final(self)@ == take_step(old(self)@).0,
            r@.map_values(|s: String| s@) == take_step(old(self)@).1,
            r@.len() == old(self)@.staged.len(),
    {
        let mut r: Vec<String> = Vec::new();
        r.append(&mut self.staged);
        proof {
            assert(r@ =~= old(self).staged@);
            assert(self@.staged =~= Seq::<Seq<char>>::empty());
        }
        r
    }

    /// Gives out the next window number and moves the counter on.
    pub fn allocate_id(&mut self) -> (r: u64)
        requires
            old(self)@.next_id < u64::MAX,
        ensures
            final(self)@ == open_step(old(self)@).0,
            r as nat == open_step(old(self)@).1,
    {
        let id = self.next_id;
        self.next_id = id + 1;
        id
    }

    /// Plans a new window, optionally showing a file: it gets the next label,
    /// the file's name as title ("Curio" where there is none), the content URL
    /// for the file, and the fixed sizes.
    pub fn plan_window(&mut self, file_path: Option<String>) -> (r: WindowPlan)
        requires
            old(self)@.next_id < u64::MAX,
        ensures
            final(self)@ == open_step(old(self)@).0,
            r.label@ == window_label(open_step(old(self)@).1),
            r.title@ == window_title(
                match file_path {
                    Some(p) => Some(p@),
                    None => None,
                },
            ),
            r.url@ == content_url_spec(
                match file_path {
                    Some(p) => Some(p@),
                    None => None,
                },
            ),
            file_path matches Some(p) ==> (is_ascii_text(p@) ==> r.url@ == "index.html?file="@
                + encode_ascii(p@)),
            r.width == INITIAL_WIDTH,
            r.height == INITIAL_HEIGHT,
            r.min_width == MIN_WIDTH,
            r.min_height == MIN_HEIGHT,
    {
        let id = self.allocate_id();
        let label = label_for(id);
        let url = content_url(&file_path);
        let title = match &file_path {
            Some(p) => name_or(file_name(p.as_str()), "Curio"),
            None => String::from_str("Curio"),
        };
        WindowPlan {
            label,
            title,
            url,
            width: INITIAL_WIDTH,
            height: INITIAL_HEIGHT,
            min_width: MIN_WIDTH,
            min_height: MIN_HEIGHT,
        }
    }
}

proof fn lemma_digit_char_injective(x: nat, y: nat)
    requires
        x < 10,
        y < 10,
        digit_char(x) == digit_char(y),
    ensures
        x == y,
{
    let d = seq!['0', '1', '2', '3', '4', '5', '6', '7', '8', '9'];
    assert(d[0] == '0' && d[1] == '1' && d[2] == '2' && d[3] == '3' && d[4] == '4' && d[5] == '5'
        && d[6] == '6' && d[7] == '7' && d[8] == '8' && d[9] == '9');
}

proof fn lemma_decimal_len(n: nat)
    ensures
        decimal(n).len() >= 1,
        n >= 10 ==> decimal(n).len() >= 2,
    decreases n,
{
    if n >= 10 {
        lemma_decimal_len(n / 10);
    }
}

/// Different numbers are written differently in decimal.
pub proof fn lemma_decimal_injective(a: nat, b: nat)
    requires
        a != b,
    ensures
        decimal(a) != decimal(b),
    decreases a,
{
    lemma_decimal_len(a);
    lemma_decimal_len(b);
    if decimal(a) == decimal(b) {
        if a < 10 && b < 10 {
            assert(decimal(a)[0] == digit_char(a));
            assert(decimal(b)[0] == digit_char(b));
            lemma_digit_char_injective(a, b);
        } else if a >= 10 && b >= 10 {
            assert(decimal(a).last() == digit_char(a % 10));
            assert(decimal(b).last() == digit_char(b % 10));
            lemma_digit_char_injective(a % 10, b % 10);
            assert(decimal(a).drop_last() =~= decimal(a / 10));
            assert(decimal(b).drop_last() =~= decimal(b / 10));
            if a / 10 != b / 10 {
                lemma_decimal_injective(a / 10, b / 10);
            }
            assert(a == 10 * (a / 10) + a % 10);
            assert(b == 10 * (b / 10) + b % 10);
        }
    }
}

/// Windows with different numbers have different labels.
pub proof fn lemma_labels_distinct(a: nat, b: nat)
    requires
        a != b,
    ensures
        window_label(a) != window_label(b),
{
    lemma_decimal_injective(a, b);
    let p = "curio-"@;
    if window_label(a) == window_label(b) {
        assert((p + decimal(a)).subrange(p.len() as int, (p + decimal(a)).len() as int) =~= decimal(a));
        assert((p + decimal(b)).subrange(p.len() as int, (p + decimal(b)).len() as int) =~= decimal(b));
    }
}

/// Two windows opened one after the other never share a label: the counter
/// only moves forward, so the second number is greater than the first.
pub proof fn lemma_successive_windows_distinct(s: SessionState)
    ensures
        open_step(open_step(s).0).1 > open_step(s).1,
        window_label(open_step(open_step(s).0).1) != window_label(open_step(s).1),
{
    lemma_labels_distinct(open_step(open_step(s).0).1, open_step(s).1);
}

/// Staged paths are delivered once: the first retrieval returns them all and
/// leaves none; once none are left, neither a retrieval nor opening a window
/// brings any back, so every later retrieval returns an empty list.
pub proof fn lemma_delivered_once(s: SessionState)
    ensures
        take_step(s).1 == s.staged,
        take_step(s).0.staged.len() == 0,
        s.staged.len() == 0 ==> take_step(s).1.len() == 0,
        s.staged.len() == 0 ==> take_step(s).0.staged.len() == 0,
        s.staged.len() == 0 ==> open_step(s).0.staged.len() == 0,
{
}

/// The message of the error for a window that the host could not create,
/// from the cause it reported.
pub open spec fn window_failure_message(cause: Seq<char>) -> Seq<char> {
    "Failed to create window: "@ + cause
}

/// The error for a window that the host could not create.
pub fn window_failure(cause: &String) -> (r: String)
    ensures
        r@ == window_failure_message(cause@),
{
    let mut m = String::from_str("Failed to create window: ");
    m.append(cause.as_str());
    m
}

} // verus!
