//! The command line: what the user types, and what it asks for.
use crate::engine::EngineCmd;
use crate::event::PendingOffer;
use crate::protocol;
use crate::session::{SendRequest, SessionCmd, STAGED_FILE};
use crate::size;
use crate::storage;
use crate::text;
use std::path::PathBuf;
use std::time::{Duration, SystemTime, SystemTimeError, UNIX_EPOCH};
use vstd::prelude::*;

verus! {

// ── Transfer identifiers ────────────────────────────────────────────

/// A point in time of the standard library.
#[verifier::external_type_specification]
#[verifier::external_body]
pub struct ExSystemTime(std::time::SystemTime);

/// The error for a point in time that lies before another.
#[verifier::external_type_specification]
#[verifier::external_body]
pub struct ExSystemTimeError(std::time::SystemTimeError);

/// The time that has passed from the Unix epoch to a point in time: what
/// [`SystemTime::duration_since`] makes of the two.
pub uninterp spec fn since_epoch_of(time: SystemTime) -> Result<Duration, SystemTimeError>;

/// The whole milliseconds of a duration: what [`Duration::as_millis`] makes of it.
pub uninterp spec fn millis_in(d: Duration) -> u128;

/// [`SystemTime::now`]: the time by the system's clock, of which nothing is said.
#[verifier::external_body]
fn system_now() -> (now: SystemTime) {
    SystemTime::now()
}

/// [`SystemTime::duration_since`] the Unix epoch: the time that has passed, or an error
/// where the epoch is still to come.
#[verifier::external_body]
fn since_epoch(time: SystemTime) -> (d: Result<Duration, SystemTimeError>)
    ensures
        d == since_epoch_of(time),
{
    time.duration_since(UNIX_EPOCH)
}

/// [`Duration::as_millis`]: the whole milliseconds of a duration.
#[verifier::external_body]
fn whole_millis(d: Duration) -> (millis: u128)
    ensures
        millis == millis_in(d),
{
    d.as_millis()
}

/// A point in time in milliseconds since the Unix epoch; zero where that is still to come.
pub open spec fn epoch_millis(time: SystemTime) -> u128 {
    match since_epoch_of(time) {
        Ok(d) => millis_in(d),
        Err(_) => 0,
    }
}

/// The transfer identifier for a point in time, in milliseconds since the Unix epoch.
pub open spec fn transfer_id_text(millis: u128) -> Seq<char> {
    "xfer-"@ + text::decimal(millis as nat)
}

/// The transfer identifier for a point in time, in milliseconds since the Unix epoch.
pub fn transfer_id_at(millis: u128) -> (id: String)
    ensures
        id@ == transfer_id_text(millis),
{
    let mut id = String::from_str("xfer-");
    text::push_decimal_wide(&mut id, millis);
    id
}

/// The current time in milliseconds since the Unix epoch.
fn current_millis() -> (millis: u128)
    ensures
        exists|now: SystemTime| millis == #[trigger] epoch_millis(now),
{
    let now = system_now();
    let millis: u128 = match since_epoch(now) {
        Ok(d) => whole_millis(d),
        Err(_) => 0,
    };
    assert(millis == epoch_millis(now));
    millis
}

/// The mark of the next transfer, where `last` was the mark of the one before, if any: the
/// current time, or the next number where that would not be a new one.
pub open spec fn next_mark(last: Option<nat>, now: nat) -> nat {
    match last {
        Some(mark) if now <= mark => mark + 1,
        _ => now,
    }
}

/// A mark, if any, as a mathematical value.
pub open spec fn mark_of(last: Option<u128>) -> Option<nat> {
    match last {
        Some(mark) => Some(mark as nat),
        None => None,
    }
}

/// The mark and the identifier of the next transfer, at the time `now`, where `last` was the
/// mark of the one before, if any.
pub fn next_transfer_id(last: Option<u128>, now: u128) -> (r: (u128, String))
    requires
        last != Some(u128::MAX),
    ensures
        r.0 == next_mark(mark_of(last), now as nat),
        r.1@ == transfer_id_text(r.0),
{
    let mark: u128 = match last {
        Some(mark) => if now <= mark {
            mark + 1
        } else {
            now
        },
        None => now,
    };
    (mark, transfer_id_at(mark))
}

/// A unique transfer identifier, from the current time. `last` holds the mark of the transfer
/// before, if any, and then that of this one, so that no identifier is given twice.
pub fn generate_transfer_id(last: &mut Option<u128>) -> (id: String)
    requires
        *old(last) != Some(u128::MAX),
    ensures
        *final(last) matches Some(mark) && id@ == transfer_id_text(mark) && exists|now: SystemTime|
            mark == next_mark(mark_of(*old(last)), #[trigger] epoch_millis(now) as nat),
        *old(last) matches Some(before) ==> id@ != transfer_id_text(before),
{
    let (mark, id) = next_transfer_id(*last, current_millis());
    proof {
        if let Some(before) = *old(last) {
            if id@ == transfer_id_text(before) {
                law_transfer_ids_differ(mark, before);
            }
        }
    }
    *last = Some(mark);
    id
}

/// The marks of several transfers, one after the other, at the times `nows`.
pub open spec fn marks(last: Option<nat>, nows: Seq<nat>) -> Seq<nat>
    decreases nows.len(),
{
    if nows.len() == 0 {
        Seq::empty()
    } else {
        let mark = next_mark(last, nows[0]);
        seq![mark] + marks(Some(mark), nows.skip(1))
    }
}

proof fn lemma_marks_rise(last: Option<nat>, nows: Seq<nat>)
    ensures
        marks(last, nows).len() == nows.len(),
        forall|i: int|
            0 <= i < nows.len() ==> (last matches Some(mark) ==> mark < #[trigger] marks(
                last,
                nows,
            )[i]),
        forall|i: int, j: int|
            0 <= i < j < nows.len() ==> #[trigger] marks(last, nows)[i] < #[trigger] marks(
                last,
                nows,
            )[j],
    decreases nows.len(),
{
    if nows.len() > 0 {
        let mark = next_mark(last, nows[0]);
        let rest = marks(Some(mark), nows.skip(1));
        let all = marks(last, nows);
        lemma_marks_rise(Some(mark), nows.skip(1));
        assert forall|i: int| 0 <= i < nows.len() implies (last matches Some(before) ==> before
            < #[trigger] all[i]) by {
            if i > 0 {
                assert(all[i] == rest[i - 1]);
            }
        }
        assert forall|i: int, j: int| 0 <= i < j < nows.len() implies #[trigger] all[i]
            < #[trigger] all[j] by {
            assert(all[j] == rest[j - 1]);
            if i > 0 {
                assert(all[i] == rest[i - 1]);
            }
        }
    }
}

/// Every transfer has an identifier of its own: whatever the clock says, even where it
/// stands still or is set back, no two transfers in a row of them share one.
pub proof fn law_transfer_ids_are_unique(last: Option<nat>, nows: Seq<nat>, i: int, j: int)
    requires
        0 <= i < j < nows.len(),
        marks(last, nows)[j] <= u128::MAX,
    ensures
        transfer_id_text(marks(last, nows)[i] as u128) != transfer_id_text(
            marks(last, nows)[j] as u128,
        ),
{
    lemma_marks_rise(last, nows);
    let (a, b) = (marks(last, nows)[i], marks(last, nows)[j]);
    if transfer_id_text(a as u128) == transfer_id_text(b as u128) {
        law_transfer_ids_differ(a as u128, b as u128);
    }
}

/// Transfers that are offered in different milliseconds have different identifiers.
pub proof fn law_transfer_ids_differ(a: u128, b: u128)
    requires
        transfer_id_text(a) == transfer_id_text(b),
    ensures
        a == b,
{
    reveal_strlit("xfer-");
    let (x, y) = (text::decimal(a as nat), text::decimal(b as nat));
    assert(transfer_id_text(a).len() == 5 + x.len());
    assert(transfer_id_text(b).len() == 5 + y.len());
    assert(transfer_id_text(a).skip(5) =~= x);
    assert(transfer_id_text(b).skip(5) =~= y);
    text::law_decimal_is_injective(a as nat, b as nat);
}

// ── What is typed at the prompt ─────────────────────────────────────

/// What a line at the prompt asks for.
#[derive(Debug, Clone)]
pub enum Command {
    /// Nothing was typed.
    Empty,
    /// Connect to a peer and send it a file.
    Connect { addr: String, file: String },
    /// Connect, but without saying to whom or what.
    ConnectUsage,
    /// Answer an offer, while there is none.
    NoOffer,
    /// Show the commands.
    Help,
    /// Leave.
    Quit,
    /// Anything else; the first word is kept.
    Unknown { word: String },
}

/// A [`Command`] as a mathematical value.
#[verifier::ext_equal]
pub enum CommandView {
    Empty,
    Connect { addr: Seq<char>, file: Seq<char> },
    ConnectUsage,
    NoOffer,
    Help,
    Quit,
    Unknown { word: Seq<char> },
}

impl View for Command {
    type V = CommandView;

    open spec fn view(&self) -> CommandView {
        match self {
            Command::Empty => CommandView::Empty,
            Command::Connect { addr, file } => CommandView::Connect { addr: addr@, file: file@ },
            Command::ConnectUsage => CommandView::ConnectUsage,
            Command::NoOffer => CommandView::NoOffer,
            Command::Help => CommandView::Help,
            Command::Quit => CommandView::Quit,
            Command::Unknown { word } => CommandView::Unknown { word: word@ },
        }
    }
}

/// The position of the first space from `from` on, or the length of the text.
pub open spec fn next_space(s: Seq<char>, from: int) -> int
    decreases s.len() - from,
{
    if from >= s.len() {
        s.len() as int
    } else if s[from] == ' ' {
        from
    } else {
        next_space(s, from + 1)
    }
}

/// What a line asks for. The first word decides. Behind `connect` one space ends the
/// address, and the file is all that follows.
pub open spec fn command_of(line: Seq<char>) -> CommandView {
    let first = next_space(line, 0);
    let second = next_space(line, first + 1);
    let word = line.take(first);
    if line.len() == 0 {
        CommandView::Empty
    } else if word == "connect"@ {
        if first == line.len() || second == line.len() {
            CommandView::ConnectUsage
        } else {
            CommandView::Connect {
                addr: line.subrange(first + 1, second),
                file: line.skip(second + 1),
            }
        }
    } else if word == "accept"@ || word == "deny"@ {
        CommandView::NoOffer
    } else if word == "help"@ || word == "?"@ {
        CommandView::Help
    } else if word == "quit"@ || word == "exit"@ || word == "q"@ {
        CommandView::Quit
    } else {
        CommandView::Unknown { word }
    }
}

fn find_space(s: &str, from: usize) -> (at: usize)
    requires
        from <= s@.len(),
    ensures
        at == next_space(s@, from as int),
        from <= at <= s@.len(),
{
    let len: usize = s.unicode_len();
    let mut at: usize = from;
    while at < len
        invariant
            from <= at <= len == s@.len(),
            next_space(s@, from as int) == next_space(s@, at as int),
        ensures
            at == next_space(s@, from as int),
        decreases len - at,
    {
        if s.get_char(at) == ' ' {
            break;
        }
        at = at + 1;
    }
    at
}

/// Reads a line that was typed at the prompt.
pub fn parse_command(line: &str) -> (command: Command)
    ensures
        command@ == command_of(line@),
{
    let len: usize = line.unicode_len();
    if len == 0 {
        return Command::Empty;
    }
    let first: usize = find_space(line, 0);
    let word = String::from_str(line.substring_char(0, first));
    assert(word@ =~= line@.take(first as int));
    if text::same(word.as_str(), "connect") {
        if first == len {
            return Command::ConnectUsage;
        }
        let second: usize = find_space(line, first + 1);
        if second == len {
            return Command::ConnectUsage;
        }
        let addr = String::from_str(line.substring_char(first + 1, second));
        let file = String::from_str(line.substring_char(second + 1, len));
        assert(file@ =~= line@.skip(second + 1));
        Command::Connect { addr, file }
    } else if text::same(word.as_str(), "accept") || text::same(word.as_str(), "deny") {
        Command::NoOffer
    } else if text::same(word.as_str(), "help") || text::same(word.as_str(), "?") {
        Command::Help
    } else if text::same(word.as_str(), "quit") || text::same(word.as_str(), "exit") || text::same(word.as_str(), "q") {
        Command::Quit
    } else {
        Command::Unknown { word }
    }
}

// ── Sending a file ──────────────────────────────────────────────────

/// Where a file is put before it is sent, for the session to find it.
pub fn staging_path(receive_dir: &PathBuf) -> (path: PathBuf)
    ensures
        path == storage::path_under(*receive_dir, STAGED_FILE@),
{
    storage::join(receive_dir, STAGED_FILE)
}

/// The name under which a file is offered: its own, if it has one.
pub open spec fn offered_name(name: Option<Seq<char>>) -> Seq<char> {
    match name {
        Some(s) => s,
        None => "unnamed"@,
    }
}

/// The name under which a file is offered: its own, if it has one.
pub fn name_to_offer(name: Option<String>) -> (s: String)
    ensures
        s@ == offered_name(protocol::opt_view(name)),
{
    match name {
        Some(s) => s,
        None => String::from_str("unnamed"),
    }
}

/// The name under which the file at a path is offered.
pub fn offered_filename(file: &PathBuf) -> (s: String)
    ensures
        s@ == offered_name(storage::file_name_of(*file)),
{
    name_to_offer(storage::file_name(file))
}

/// The command that connects to a peer and offers it the file at a path, which is staged in
/// the session's folder.
pub fn handle_connect_cmd(
    addr: String,
    transfer_id: String,
    receive_dir: &PathBuf,
    file: &PathBuf,
    size_bytes: u64,
) -> (cmd: EngineCmd)
    ensures
        cmd matches EngineCmd::Connect { addr: a, send_request: Some(req) } && a == addr
            && req.transfer_id == transfer_id && req.file_path == storage::path_under(
            *receive_dir,
            STAGED_FILE@,
        ) && req.filename@ == offered_name(storage::file_name_of(*file)) && req.size_bytes
            == size_bytes && req.sha256_hex@ == "not-computed"@,
{
    EngineCmd::Connect {
        addr,
        send_request: Some(
            SendRequest {
                transfer_id,
                file_path: staging_path(receive_dir),
                filename: offered_filename(file),
                size_bytes,
                sha256_hex: String::from_str("not-computed"),
            },
        ),
    }
}

/// What the user is told while the connection is made.
pub fn connecting_text(addr: &str, filename: &str, size_bytes: u64) -> (s: String)
    ensures
        s@ == "  📤 Connecting to "@ + addr@ + " to send \""@ + filename@ + "\" ("@
            + size::size_text(size_bytes as nat) + ")..."@,
{
    String::from_str("  📤 Connecting to ").concat(addr).concat(" to send \"").concat(
        filename,
    ).concat("\" (").concat(size::format_size(size_bytes).as_str()).concat(")...")
}

// ── Answering an offer ──────────────────────────────────────────────

/// Whether a text in lower case says yes or no, if either.
pub open spec fn answer_of(lower: Seq<char>) -> Option<bool> {
    if lower == "accept"@ || lower == "a"@ || lower == "yes"@ || lower == "y"@ {
        Some(true)
    } else if lower == "deny"@ || lower == "d"@ || lower == "no"@ || lower == "n"@ {
        Some(false)
    } else {
        None
    }
}

/// Reads an answer that is in lower case.
pub fn parse_lower_answer(lower: &str) -> (r: Option<bool>)
    ensures
        r == answer_of(lower@),
{
    if text::same(lower, "accept") || text::same(lower, "a") || text::same(lower, "yes") || text::same(lower, "y") {
        Some(true)
    } else if text::same(lower, "deny") || text::same(lower, "d") || text::same(lower, "no") || text::same(lower, "n") {
        Some(false)
    } else {
        None
    }
}

/// Reads an answer, in whatever case it was typed.
pub fn parse_answer(answer: &str) -> (r: Option<bool>)
    ensures
        r == answer_of(text::lowercase_of(answer@)),
{
    parse_lower_answer(text::to_lowercase(answer).as_str())
}

/// What follows from the answer to an offer: the command to send and what the user is told,
/// or that the question is to be asked again.
pub fn handle_pending_offer(offer: &PendingOffer, answer: &str) -> (r: (Option<EngineCmd>, &'static str))
    ensures
        match answer_of(text::lowercase_of(answer@)) {
            Some(accept) => {
                &&& r.0 == Some(
                    EngineCmd::SessionCmd {
                        session_id: offer.session_id,
                        cmd: SessionCmd::RespondToOffer { transfer_id: offer.transfer_id, accept },
                    },
                )
                &&& r.1@ == (if accept {
                    "  ✅ Accepting transfer..."@
                } else {
                    "  🚫 Denying transfer."@
                })
            },
            None => r.0 is None && r.1@ == "  Please type 'accept' or 'deny'."@,
        },
{
    match parse_answer(answer) {
        Some(accept) => {
            let cmd = EngineCmd::SessionCmd {
                session_id: offer.session_id,
                cmd: SessionCmd::RespondToOffer { transfer_id: offer.transfer_id.clone(), accept },
            };
            (
                Some(cmd),
                if accept {
                    "  ✅ Accepting transfer..."
                } else {
                    "  🚫 Denying transfer."
                },
            )
        },
        None => (None, "  Please type 'accept' or 'deny'."),
    }
}

// ── What lines and answers come to ──────────────────────────────────

/// Whether there is no space in a text.
pub open spec fn is_one_word(s: Seq<char>) -> bool {
    forall|i: int| 0 <= i < s.len() ==> #[trigger] s[i] != ' '
}

proof fn lemma_next_space(s: Seq<char>, from: int, at: int)
    requires
        0 <= from <= at <= s.len(),
        forall|i: int| from <= i < at ==> #[trigger] s[i] != ' ',
        at < s.len() ==> s[at] == ' ',
    ensures
        next_space(s, from) == at,
    decreases at - from,
{
    if from < at {
        lemma_next_space(s, from + 1, at);
    }
}

/// Behind `connect`, one word is the address and all that follows it is the file, spaces
/// included.
pub proof fn law_connect_names_a_peer_and_a_file(addr: Seq<char>, file: Seq<char>)
    requires
        is_one_word(addr),
    ensures
        command_of("connect "@ + addr + seq![' '] + file) == (CommandView::Connect { addr, file }),
        command_of("connect "@ + addr) is ConnectUsage,
        command_of("connect"@) is ConnectUsage,
{
    reveal_strlit("connect");
    reveal_strlit("connect ");
    let line = "connect "@ + addr + seq![' '] + file;
    let short = "connect "@ + addr;
    let end = 8 + addr.len() as int;
    assert forall|i: int| 8 <= i < end implies #[trigger] line[i] != ' ' by {
        assert(line[i] == addr[i - 8]);
    }
    assert forall|i: int| 8 <= i < end implies #[trigger] short[i] != ' ' by {
        assert(short[i] == addr[i - 8]);
    }
    assert(line[end] == ' ');
    lemma_next_space(line, 0, 7);
    lemma_next_space(line, 8, end);
    assert(line.take(7) =~= "connect"@);
    assert(line.subrange(8, end) =~= addr);
    assert(line.skip(end + 1) =~= file);
    lemma_next_space(short, 0, 7);
    lemma_next_space(short, 8, end);
    assert(short.take(7) =~= "connect"@);
    lemma_next_space("connect"@, 0, 7);
    assert("connect"@.take(7) =~= "connect"@);
}

/// The first word of a line decides what it asks for, whatever follows; a word that asks for
/// nothing is handed back.
pub proof fn law_first_word_decides(word: Seq<char>, rest: Seq<char>)
    requires
        word.len() > 0,
        is_one_word(word),
        word != "connect"@,
    ensures
        command_of(word + seq![' '] + rest) == command_of(word),
        word == "accept"@ || word == "deny"@ ==> command_of(word) is NoOffer,
        word == "help"@ || word == "?"@ ==> command_of(word) is Help,
        word == "quit"@ || word == "exit"@ || word == "q"@ ==> command_of(word) is Quit,
        word != "accept"@ && word != "deny"@ && word != "help"@ && word != "?"@ && word != "quit"@
            && word != "exit"@ && word != "q"@ ==> command_of(word) == (CommandView::Unknown {
            word,
        }),
        command_of(Seq::empty()) is Empty,
{
    let line = word + seq![' '] + rest;
    let end = word.len() as int;
    assert forall|i: int| 0 <= i < end implies #[trigger] line[i] != ' ' by {
        assert(line[i] == word[i]);
    }
    assert(line[end] == ' ');
    lemma_next_space(line, 0, end);
    lemma_next_space(word, 0, end);
    assert(line.take(end) =~= word);
    assert(word.take(end) =~= word);
    reveal_strlit("accept");
    reveal_strlit("deny");
    reveal_strlit("help");
    reveal_strlit("?");
    reveal_strlit("quit");
    reveal_strlit("exit");
    reveal_strlit("q");
    assert("accept"@[0] == 'a' && "deny"@[0] == 'd' && "help"@[0] == 'h' && "?"@[0] == '?');
    assert("quit"@.len() == 4 && "exit"@[0] == 'e' && "q"@.len() == 1);
    assert("quit"@[0] == 'q');
}

/// Four words say yes and four say no, each with its first letter alone; everything else is no
/// answer, and no word is both.
pub proof fn law_answers_are_told_apart(word: Seq<char>)
    ensures
        answer_of(word) == Some(true) <==> (word == "accept"@ || word == "a"@ || word == "yes"@
            || word == "y"@),
        answer_of(word) == Some(false) <==> (word == "deny"@ || word == "d"@ || word == "no"@
            || word == "n"@),
{
    reveal_strlit("accept");
    reveal_strlit("a");
    reveal_strlit("yes");
    reveal_strlit("y");
    reveal_strlit("deny");
    reveal_strlit("d");
    reveal_strlit("no");
    reveal_strlit("n");
    assert("accept"@[0] == 'a' && "a"@[0] == 'a' && "yes"@[0] == 'y' && "y"@[0] == 'y');
    assert("deny"@[0] == 'd' && "d"@[0] == 'd' && "no"@[0] == 'n' && "n"@[0] == 'n');
}

/// A transfer identifier spells the time out, behind `xfer-`.
pub proof fn law_transfer_id_spells_the_time(millis: u128)
    ensures
        transfer_id_text(millis).take(5) == seq!['x', 'f', 'e', 'r', '-'],
        transfer_id_text(millis).skip(5) == text::decimal(millis as nat),
{
    reveal_strlit("xfer-");
    assert(transfer_id_text(millis).take(5) =~= seq!['x', 'f', 'e', 'r', '-']);
    assert(transfer_id_text(millis).skip(5) =~= text::decimal(millis as nat));
}

/// The mark of a transfer is the time, as long as that is new, and never far from it: it lies
/// behind the last one, and is neither before the time nor further on than it must be.
pub proof fn law_marks_follow_the_clock(last: Option<nat>, now: nat)
    ensures
        next_mark(last, now) >= now,
        last is None ==> next_mark(last, now) == now,
        last matches Some(mark) ==> {
            &&& next_mark(last, now) > mark
            &&& next_mark(last, now) == now || next_mark(last, now) == mark + 1
        },
{
}

/// A file is offered under its own name; one that has none is called `unnamed`.
pub proof fn law_file_is_offered_by_its_name(name: Seq<char>)
    ensures
        offered_name(Some(name)) == name,
        offered_name(None) == "unnamed"@,
{
}

/// The time is what has passed since the epoch, in whole milliseconds; a clock that is set
/// before the epoch shows zero.
pub proof fn law_time_counts_from_the_epoch(time: SystemTime)
    ensures
        since_epoch_of(time) matches Ok(d) ==> epoch_millis(time) == millis_in(d),
        since_epoch_of(time) is Err ==> epoch_millis(time) == 0,
{
}

} // verus!
