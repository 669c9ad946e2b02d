//! The terminal client's state and command language.
use vstd::prelude::*;
use crate::rooms::str_eq;

verus! {

/// What the terminal client shows: the message history, the line being
/// typed, and the character's pools.
pub struct AppState {
    pub messages: Vec<String>,
    pub input: String,
    pub hp: i32,
    pub max_hp: i32,
    pub stamina: i32,
    pub max_stamina: i32,
}

impl AppState {
    /// A fresh client: three greeting lines, an empty input line and full
    /// pools of 100.
    pub fn new() -> (r: AppState)
        ensures
            r.messages@.len() == 3,
            r.messages@[0]@ == "Welcome to DOGMUD!"@,
            r.messages@[1]@ == "Type commands and press Enter."@,
            r.messages@[2]@ == "Press 'q' to quit."@,
            r.input@.len() == 0,
            r.hp == 100 && r.max_hp == 100 && r.stamina == 100 && r.max_stamina == 100,
    {
        let mut messages: Vec<String> = Vec::new();
        messages.push("Welcome to DOGMUD!".to_string());
        messages.push("Type commands and press Enter.".to_string());
        messages.push("Press 'q' to quit.".to_string());
        AppState { messages, input: String::new(), hp: 100, max_hp: 100, stamina: 100, max_stamina: 100 }
    }
}

/// Whether the client holds a live connection to the server.
pub struct Connection {
    pub connected: bool,
}

impl Connection {
    pub fn new() -> (r: Connection)
        ensures
            !r.connected,
    {
        Connection { connected: false }
    }

    pub fn is_connected(&self) -> (r: bool)
        ensures
            r == self.connected,
    {
        self.connected
    }

    pub fn set_connected(&mut self, connected: bool)
        ensures
            final(self).connected == connected,
    {
        self.connected = connected;
    }
}

/// The server and module that a maintenance driver talks to.
pub struct SpacetimeClient {
    pub url: String,
    pub module: String,
}

impl SpacetimeClient {
    pub fn connect(url: &str, module: &str) -> (r: SpacetimeClient)
        ensures
            r.url@ == url@,
            r.module@ == module@,
    {
        SpacetimeClient { url: url.to_string(), module: module.to_string() }
    }
}

/// Unicode's White_Space property, which `char::is_whitespace` tests.
pub open spec fn white(c: char) -> bool {
    let u = c as u32;
    (0x09 <= u && u <= 0x0d) || u == 0x20 || u == 0x85 || u == 0xa0 || u == 0x1680 || (0x2000 <= u
        && u <= 0x200a) || u == 0x2028 || u == 0x2029 || u == 0x202f || u == 0x205f || u == 0x3000
}

fn is_white(c: char) -> (r: bool)
    ensures
        r == white(c),
{
    let u = c as u32;
    (0x09 <= u && u <= 0x0d) || u == 0x20 || u == 0x85 || u == 0xa0 || u == 0x1680 || (0x2000 <= u
        && u <= 0x200a) || u == 0x2028 || u == 0x2029 || u == 0x202f || u == 0x205f || u == 0x3000
}

/// The first position at or after `i` that holds no whitespace.
pub open spec fn skip_white(s: Seq<char>, i: int) -> int
    decreases s.len() - i,
{
    if i < 0 || i >= s.len() {
        s.len() as int
    } else if !white(s[i]) {
        i
    } else {
        skip_white(s, i + 1)
    }
}

/// The first position at or after `i` that holds whitespace.
pub open spec fn word_end(s: Seq<char>, i: int) -> int
    decreases s.len() - i,
{
    if i < 0 || i >= s.len() {
        s.len() as int
    } else if white(s[i]) {
        i
    } else {
        word_end(s, i + 1)
    }
}

proof fn lemma_skip_bounds(s: Seq<char>, i: int)
    requires
        0 <= i <= s.len(),
    ensures
        i <= skip_white(s, i) <= s.len(),
    decreases s.len() - i,
{
    if i < s.len() && white(s[i]) {
        lemma_skip_bounds(s, i + 1);
    }
}

proof fn lemma_end_bounds(s: Seq<char>, i: int)
    requires
        0 <= i <= s.len(),
    ensures
        i <= word_end(s, i) <= s.len(),
    decreases s.len() - i,
{
    if i < s.len() && !white(s[i]) {
        lemma_end_bounds(s, i + 1);
    }
}

fn skip_white_from(s: &str, n: usize, i: usize) -> (r: usize)
    requires
        n == s@.len(),
        i <= n,
    ensures
        r == skip_white(s@, i as int),
{
    proof {
        lemma_skip_bounds(s@, i as int);
    }
    let mut k = i;
    while k < n
        invariant
            n == s@.len(),
            i <= k <= n,
            skip_white(s@, i as int) == skip_white(s@, k as int),
        decreases n - k,
    {
        if !is_white(s.get_char(k)) {
            return k;
        }
        k = k + 1;
    }
    k
}

fn word_end_from(s: &str, n: usize, i: usize) -> (r: usize)
    requires
        n == s@.len(),
        i <= n,
    ensures
        r == word_end(s@, i as int),
{
    let mut k = i;
    while k < n
        invariant
            n == s@.len(),
            i <= k <= n,
            word_end(s@, i as int) == word_end(s@, k as int),
        decreases n - k,
    {
        if is_white(s.get_char(k)) {
            return k;
        }
        k = k + 1;
    }
    k
}

/// The first two whitespace-separated words of a line (empty when absent).
pub open spec fn first_words(s: Seq<char>) -> (Seq<char>, Seq<char>) {
    let a0 = skip_white(s, 0);
    let a1 = word_end(s, a0);
    let b0 = skip_white(s, a1);
    let b1 = word_end(s, b0);
    (s.subrange(a0, a1), s.subrange(b0, b1))
}

/// The value of a string of ASCII decimal digits.
pub open spec fn digits_value(s: Seq<char>) -> int
    decreases s.len(),
{
    if s.len() == 0 {
        0
    } else {
        digits_value(s.drop_last()) * 10 + (s.last() as int - '0' as int)
    }
}

pub open spec fn all_digits(s: Seq<char>) -> bool {
    forall|i: int| 0 <= i < s.len() ==> '0' <= #[trigger] s[i] && s[i] <= '9'
}

proof fn lemma_digits_value_nonneg(s: Seq<char>)
    requires
        all_digits(s),
    ensures
        digits_value(s) >= 0,
    decreases s.len(),
{
    if s.len() > 0 {
        lemma_digits_value_nonneg(s.drop_last());
    }
}

/// Reads an entity id typed as decimal digits: `None` for an empty word,
/// a non-digit, or a value beyond `u64`.
pub fn parse_entity_id(s: &str) -> (r: Option<u64>)
    ensures
        r is Some <==> (s@.len() > 0 && all_digits(s@) && digits_value(s@) <= u64::MAX),
        r is Some ==> r->0 == digits_value(s@),
{
    let n = s.unicode_len();
    if n == 0 {
        return None;
    }
    let mut v: u64 = 0;
    let mut i: usize = 0;
    while i < n
        invariant
            n == s@.len(),
            0 <= i <= n,
            all_digits(s@.subrange(0, i as int)),
            v == digits_value(s@.subrange(0, i as int)),
        decreases n - i,
    {
        let c = s.get_char(i);
        let ghost pre = s@.subrange(0, i as int);
        let ghost next = s@.subrange(0, i as int + 1);
        proof {
            assert(next.drop_last() =~= pre);
        }
        if c < '0' || c > '9' {
            proof {
                assert(!all_digits(s@)) by {
                    assert(s@[i as int] == c);
                }
            }
            return None;
        }
        let d = (c as u32 - '0' as u32) as u64;
        if v > (u64::MAX - d) / 10 {
            proof {
                assert(digits_value(next) > u64::MAX);
                lemma_prefix_bounds(s@, i as int + 1);
            }
            return None;
        }
        v = v * 10 + d;
        i = i + 1;
    }
    assert(s@.subrange(0, n as int) =~= s@);
    Some(v)
}

/// The value of the digits never shrinks as more digits follow.
proof fn lemma_prefix_bounds(s: Seq<char>, k: int)
    requires
        0 <= k <= s.len(),
        all_digits(s.subrange(0, k)),
    ensures
        all_digits(s) ==> digits_value(s.subrange(0, k)) <= digits_value(s),
    decreases s.len() - k,
{
    if k < s.len() && all_digits(s) {
        let a = s.subrange(0, k);
        let b = s.subrange(0, k + 1);
        assert(b.drop_last() =~= a);
        assert(all_digits(b));
        lemma_digits_value_nonneg(a);
        lemma_prefix_bounds(s, k + 1);
    }
    if k == s.len() {
        assert(s.subrange(0, k) =~= s);
    }
}

/// A command line of the terminal client.
#[derive(Clone, Debug, PartialEq, Eq)]
pub enum ClientCommand {
    /// Nothing but whitespace.
    Empty,
    Move { direction: String },
    /// `move` or `go` without a direction.
    MoveUsage,
    Attack { target: String },
    /// `attack` without a target.
    AttackUsage,
    Look,
    Help,
    Unknown { word: String },
}

/// The command that a line holds, read from its first two words: "move" or
/// "go" with a direction, "attack" with a target, "look" or "l", "help".
pub open spec fn command_kind(s: Seq<char>) -> int {
    let (w, arg) = first_words(s);
    if w.len() == 0 {
        0
    } else if w == "move"@ || w == "go"@ {
        if arg.len() == 0 { 2 } else { 1 }
    } else if w == "attack"@ {
        if arg.len() == 0 { 4 } else { 3 }
    } else if w == "look"@ || w == "l"@ {
        5
    } else if w == "help"@ {
        6
    } else {
        7
    }
}

pub open spec fn kind_of(c: ClientCommand) -> int {
    match c {
        ClientCommand::Empty => 0,
        ClientCommand::Move { .. } => 1,
        ClientCommand::MoveUsage => 2,
        ClientCommand::Attack { .. } => 3,
        ClientCommand::AttackUsage => 4,
        ClientCommand::Look => 5,
        ClientCommand::Help => 6,
        ClientCommand::Unknown { .. } => 7,
    }
}

/// Reads a command line. The direction of a move, the target of an
/// attack, and an unknown command word are handed back as typed.
pub fn parse_command(line: &str) -> (r: ClientCommand)
    ensures
        kind_of(r) == command_kind(line@),
        r matches ClientCommand::Move { direction } ==> direction@ == first_words(line@).1,
        r matches ClientCommand::Attack { target } ==> target@ == first_words(line@).1,
        r matches ClientCommand::Unknown { word } ==> word@ == first_words(line@).0,
{
    let n = line.unicode_len();
    let a0 = skip_white_from(line, n, 0);
    proof {
        lemma_skip_bounds(line@, 0);
        lemma_end_bounds(line@, a0 as int);
    }
    let a1 = word_end_from(line, n, a0);
    proof {
        lemma_skip_bounds(line@, a1 as int);
    }
    let b0 = skip_white_from(line, n, a1);
    proof {
        lemma_end_bounds(line@, b0 as int);
    }
    let b1 = word_end_from(line, n, b0);
    let w = line.substring_char(a0, a1);
    let has_arg = b0 < b1;
    if a0 == a1 {
        return ClientCommand::Empty;
    }
    if str_eq(w, "move") || str_eq(w, "go") {
        if has_arg {
            ClientCommand::Move { direction: line.substring_char(b0, b1).to_string() }
        } else {
            ClientCommand::MoveUsage
        }
    } else if str_eq(w, "attack") {
        if has_arg {
            ClientCommand::Attack { target: line.substring_char(b0, b1).to_string() }
        } else {
            ClientCommand::AttackUsage
        }
    } else if str_eq(w, "look") || str_eq(w, "l") {
        ClientCommand::Look
    } else if str_eq(w, "help") {
        ClientCommand::Help
    } else {
        ClientCommand::Unknown { word: w.to_string() }
    }
}

} // verus!
