use crate::config::FuzixConfig;
use crate::disk::DiskManager;
use crate::lines::{line_bounds, lines_of, pieces};
use crate::paths::{join, join_spec};
use crate::plan::{step, steps_view, strings_view, FileStep, StepKind};
use crate::text::{
    chars_of, concat2, has_prefix, has_substring, has_suffix, join_with, range_has_prefix,
    range_has_substring, str_contains, str_ends_with, str_eq,
};
use crate::toolchain::ToolchainManager;
use vstd::prelude::*;

verus! {

/// Runs programs inside an emulator with the project's disk images.
pub struct EmulatorRunner<'a> {
    pub config: &'a FuzixConfig,
    pub toolchain: &'a ToolchainManager,
    pub disk: &'a DiskManager<'a>,
}

/// The line that ends a program's output: the shutdown command's echo, a new
/// shell prompt, or a halt message.
pub open spec fn is_stop_line(l: Seq<char>) -> bool {
    ||| has_substring(l, "shutdown"@)
    ||| has_prefix(l, "# "@)
    ||| has_prefix(l, "$ "@)
    ||| has_substring(l, "System halted"@)
    ||| has_substring(l, "Halted"@)
}

/// The lines of `ls` before the first stop line.
pub open spec fn lines_until_stop(ls: Seq<Seq<char>>) -> Seq<Seq<char>>
    decreases ls.len(),
{
    if ls.len() == 0 {
        Seq::empty()
    } else if is_stop_line(ls[0]) {
        Seq::empty()
    } else {
        seq![ls[0]] + lines_until_stop(ls.drop_first())
    }
}

/// The program's output lines in a session log split into lines `ls`: those
/// after the first line that holds `command`, up to the first stop line; none
/// when no line holds `command`.
pub open spec fn output_lines(ls: Seq<Seq<char>>, command: Seq<char>) -> Seq<Seq<char>>
    decreases ls.len(),
{
    if ls.len() == 0 {
        Seq::empty()
    } else if has_substring(ls[0], command) {
        lines_until_stop(ls.drop_first())
    } else {
        output_lines(ls.drop_first(), command)
    }
}

/// The output of `command` in the session log `log`: its output lines (see
/// [`output_lines`]) joined by newlines.
pub open spec fn program_output(log: Seq<char>, command: Seq<char>) -> Seq<char> {
    join_with(output_lines(lines_of(log), command), "\n"@)
}

/// Whether the part `lo..hi` of `v` is a stop line (see [`is_stop_line`]).
fn range_is_stop_line(v: &Vec<char>, lo: usize, hi: usize) -> (r: bool)
    requires
        lo <= hi <= v.len(),
    ensures
        r == is_stop_line(v@.subrange(lo as int, hi as int)),
{
    let shutdown = chars_of("shutdown");
    let hash_prompt = chars_of("# ");
    let dollar_prompt = chars_of("$ ");
    let halted_long = chars_of("System halted");
    let halted = chars_of("Halted");
    range_has_substring(v, lo, hi, &shutdown) || range_has_prefix(v, lo, hi, &hash_prompt)
        || range_has_prefix(v, lo, hi, &dollar_prompt) || range_has_substring(
        v,
        lo,
        hi,
        &halted_long,
    ) || range_has_substring(v, lo, hi, &halted)
}

/// The output of `command` in the session log `full_log` (see
/// [`program_output`]).
pub fn extract_program_output(full_log: &str, command: &str) -> (r: String)
    ensures
        r@ == program_output(full_log@, command@),
{
    let v = chars_of(full_log);
    let cmd = chars_of(command);
    let bounds = line_bounds(&v);
    let ghost ls = lines_of(v@);
    let mut collecting = false;
    let mut parts: Vec<String> = Vec::new();
    let mut i: usize = 0;
    assert(ls.skip(0) =~= ls);
    while i < bounds.len()
        invariant
            v@ == full_log@,
            cmd@ == command@,
            crate::lines::bounds_within(v@, bounds@),
            pieces(v@, bounds@) == ls,
            ls == lines_of(full_log@),
            i <= bounds.len(),
            !collecting ==> parts@.len() == 0 && output_lines(ls, cmd@) == output_lines(
                ls.skip(i as int),
                cmd@,
            ),
            collecting ==> output_lines(ls, cmd@) == strings_view(parts@)
                + lines_until_stop(ls.skip(i as int)),
        decreases bounds.len() - i,
    {
        let (a, b) = bounds[i];
        proof {
            assert(bounds@[i as int].0 <= bounds@[i as int].1 <= v@.len());
            assert(ls[i as int] == v@.subrange(a as int, b as int));
            assert(ls.skip(i as int)[0] == ls[i as int]);
            assert(ls.skip(i as int).drop_first() =~= ls.skip(i + 1));
        }
        if !collecting {
            if range_has_substring(&v, a, b, &cmd) {
                collecting = true;
                assert(strings_view(parts@) =~= Seq::<Seq<char>>::empty());
                assert(Seq::<Seq<char>>::empty() + lines_until_stop(ls.skip(i + 1)) =~= lines_until_stop(
                    ls.skip(i + 1),
                ));
            }
        } else {
            if range_is_stop_line(&v, a, b) {
                assert(ls.skip(bounds.len() as int).len() == 0);
                assert(lines_until_stop(ls.skip(i as int)) == Seq::<Seq<char>>::empty());
                assert(strings_view(parts@) + Seq::<Seq<char>>::empty()
                    =~= strings_view(parts@));
                let r = crate::text::join(&parts, "\n");
                return r;
            }
            let ghost before = strings_view(parts@);
            let line = String::from_str(full_log.substring_char(a, b));
            parts.push(line);
            assert(strings_view(parts@) =~= before.push(ls[i as int]));
            assert(before.push(ls[i as int]) + lines_until_stop(ls.skip(i + 1)) =~= before + (seq![
                ls[i as int],
            ] + lines_until_stop(ls.skip(i + 1))));
        }
        i = i + 1;
    }
    proof {
        assert(ls.skip(i as int).len() == 0);
        assert(output_lines(ls.skip(i as int), cmd@) == Seq::<Seq<char>>::empty());
        assert(lines_until_stop(ls.skip(i as int)) == Seq::<Seq<char>>::empty());
        assert(strings_view(parts@) + Seq::<Seq<char>>::empty() =~= strings_view(parts@));
        assert(ls.skip(0) =~= ls);
    }
    crate::text::join(&parts, "\n")
}

/// Whether the keyboard input `bytes` holds `Ctrl-]`, which ends an
/// interactive session.
pub fn contains_escape(bytes: &[u8]) -> (r: bool)
    ensures
        r == exists|i: int| 0 <= i < bytes@.len() && bytes@[i] == 0x1Du8,
{
    let mut i: usize = 0;
    while i < bytes.len()
        invariant
            i <= bytes@.len(),
            forall|k: int| 0 <= k < i ==> bytes@[k] != 0x1Du8,
        decreases bytes@.len() - i,
    {
        if bytes[i] == 0x1D {
            return true;
        }
        i = i + 1;
    }
    false
}

/// The state of a non-interactive emulator session, as plain values.
pub ghost struct SessionModel {
    pub logged_in: bool,
    pub command_sent: bool,
    pub command_finished: bool,
    pub captured: Seq<char>,
}

/// The state of a non-interactive emulator session: how far it has come
/// (logged in, command sent, command finished) and everything the emulator
/// has printed so far.
#[derive(Debug, Clone)]
pub struct Session {
    pub logged_in: bool,
    pub command_sent: bool,
    pub command_finished: bool,
    pub captured: String,
}

/// What the session does after a piece of emulator output: the replies to
/// type into the emulator, in order; whether to stop the session; whether to
/// read again at once, without the usual short pause.
#[derive(Debug, Clone)]
pub struct SessionStep {
    pub replies: Vec<String>,
    pub halt: bool,
    pub skip_pause: bool,
}

/// Why a session produced no output.
#[derive(Debug, Clone, Copy, PartialEq, Eq, Structural)]
pub enum SessionError {
    /// The emulator never reached a shell prompt, so the command was never sent.
    LoginTimeout,
}

impl View for Session {
    type V = SessionModel;

    open spec fn view(&self) -> SessionModel {
        SessionModel {
            logged_in: self.logged_in,
            command_sent: self.command_sent,
            command_finished: self.command_finished,
            captured: self.captured@,
        }
    }
}

/// The session's stages come in order: a finished command was sent, and a
/// command is only sent after login.
pub open spec fn session_wf(m: SessionModel) -> bool {
    &&& m.command_finished ==> m.command_sent
    &&& m.command_sent ==> m.logged_in
}

/// The answer to a boot or login prompt in `chunk`, before login: the boot
/// device `0`, the boot command `b`, or the user `root`.
pub open spec fn login_reply(m: SessionModel, chunk: Seq<char>) -> Option<Seq<char>> {
    if m.logged_in {
        None
    } else if has_substring(chunk, "bootdev:"@) {
        Some("0\r"@)
    } else if has_substring(chunk, "boot:"@) || has_substring(chunk, "Boot>"@) {
        Some("b\r"@)
    } else if has_substring(chunk, "login:"@) {
        Some("root\r"@)
    } else {
        None
    }
}

/// `chunk` shows a shell prompt.
pub open spec fn shows_prompt(chunk: Seq<char>) -> bool {
    has_substring(chunk, "# "@) || has_substring(chunk, "$ "@)
}

/// Everything printed so far shows that the sent command has returned to the
/// shell (or that the shutdown has begun).
pub open spec fn command_done(captured: Seq<char>) -> bool {
    has_substring(captured, "# shutdown"@) || has_suffix(captured, "# "@) || has_suffix(
        captured,
        "$ "@,
    )
}

/// `chunk` shows that the system has halted.
pub open spec fn shows_halt(chunk: Seq<char>) -> bool {
    has_substring(chunk, "Halted"@) || has_substring(chunk, "System halted"@) || has_substring(
        chunk,
        "halt:"@,
    )
}

/// The session after the emulator printed `chunk`, running `command`.
pub open spec fn next_session(m: SessionModel, chunk: Seq<char>, command: Seq<char>) -> SessionModel {
    let captured = m.captured + chunk;
    let logged = m.logged_in || (login_reply(m, chunk) is None && shows_prompt(chunk));
    if logged && !m.command_sent {
        SessionModel {
            logged_in: true,
            command_sent: true,
            command_finished: m.command_finished,
            captured,
        }
    } else {
        SessionModel {
            logged_in: logged,
            command_sent: m.command_sent,
            command_finished: m.command_finished || (m.command_sent && command_done(captured)),
            captured,
        }
    }
}

/// The replies the session types after the emulator printed `chunk`: the
/// answer to a boot or login prompt; then the command line, right after
/// login; or `shutdown`, once the command has returned.
pub open spec fn session_replies(m: SessionModel, chunk: Seq<char>, command: Seq<char>) -> Seq<
    Seq<char>,
> {
    let captured = m.captured + chunk;
    let logged = m.logged_in || (login_reply(m, chunk) is None && shows_prompt(chunk));
    let first = match login_reply(m, chunk) {
        Some(x) => seq![x],
        None => Seq::empty(),
    };
    if logged && !m.command_sent {
        first.push(command + "\r"@)
    } else if m.command_sent && !m.command_finished && command_done(captured) {
        first.push("shutdown\r"@)
    } else {
        first
    }
}

/// Whether the session stops after the emulator printed `chunk`: once the
/// command has finished and the system reports that it halted.
pub open spec fn session_halts(m: SessionModel, chunk: Seq<char>, command: Seq<char>) -> bool {
    let logged = m.logged_in || (login_reply(m, chunk) is None && shows_prompt(chunk));
    !(logged && !m.command_sent) && next_session(m, chunk, command).command_finished && shows_halt(
        chunk,
    )
}

/// Whether the session reads again at once: right after sending the command.
pub open spec fn session_skips_pause(m: SessionModel, chunk: Seq<char>) -> bool {
    let logged = m.logged_in || (login_reply(m, chunk) is None && shows_prompt(chunk));
    logged && !m.command_sent
}

/// The session after the emulator printed each of `chunks` in turn.
pub open spec fn run_session(m: SessionModel, chunks: Seq<Seq<char>>, command: Seq<char>) -> SessionModel
    decreases chunks.len(),
{
    if chunks.len() == 0 {
        m
    } else {
        next_session(run_session(m, chunks.drop_last(), command), chunks.last(), command)
    }
}

/// The pieces of `chunks`, one after the other.
pub open spec fn concat_all(chunks: Seq<Seq<char>>) -> Seq<char>
    decreases chunks.len(),
{
    if chunks.len() == 0 {
        Seq::empty()
    } else {
        concat_all(chunks.drop_last()) + chunks.last()
    }
}

/// One piece of output moves a session forward only: its stages stay in
/// order, no stage is ever undone, and the captured log grows by exactly the
/// piece.
pub proof fn lemma_step_moves_forward(m: SessionModel, chunk: Seq<char>, command: Seq<char>)
    requires
        session_wf(m),
    ensures
        session_wf(next_session(m, chunk, command)),
        m.logged_in ==> next_session(m, chunk, command).logged_in,
        m.command_sent ==> next_session(m, chunk, command).command_sent,
        m.command_finished ==> next_session(m, chunk, command).command_finished,
        next_session(m, chunk, command).captured == m.captured + chunk,
{
}

/// The command line is typed exactly once: at the step where the session
/// first counts as logged in, as the last reply of that step, after which the
/// session reads again at once. Once it is typed, the only reply the session
/// ever gives is a single `shutdown`, and once the command has finished it
/// gives none.
pub proof fn lemma_command_typed_once(m: SessionModel, chunk: Seq<char>, command: Seq<char>)
    requires
        session_wf(m),
    ensures
        !m.command_sent && next_session(m, chunk, command).command_sent ==> {
            let r = session_replies(m, chunk, command);
            &&& r.len() >= 1
            &&& r.last() == command + "\r"@
            &&& session_skips_pause(m, chunk)
        },
        !next_session(m, chunk, command).command_sent ==> forall|i: int|
            0 <= i < session_replies(m, chunk, command).len() ==> session_replies(
                m,
                chunk,
                command,
            )[i] != command + "\r"@ || login_reply(m, chunk) == Some(command + "\r"@),
        m.command_sent ==> session_replies(m, chunk, command).len() <= 1 && (forall|i: int|
            0 <= i < session_replies(m, chunk, command).len() ==> session_replies(
                m,
                chunk,
                command,
            )[i] == "shutdown\r"@),
        m.command_finished ==> session_replies(m, chunk, command).len() == 0,
{
}

/// A session only stops after its command has finished.
pub proof fn lemma_halt_only_when_finished(m: SessionModel, chunk: Seq<char>, command: Seq<char>)
    ensures
        session_halts(m, chunk, command) ==> next_session(m, chunk, command).command_finished,
{
}

/// Over any sequence of output pieces the session's stages stay in order and
/// are never undone, and the captured log is the starting log followed by
/// every piece, in order.
pub proof fn lemma_run_moves_forward(m: SessionModel, chunks: Seq<Seq<char>>, command: Seq<char>)
    requires
        session_wf(m),
    ensures
        session_wf(run_session(m, chunks, command)),
        m.logged_in ==> run_session(m, chunks, command).logged_in,
        m.command_sent ==> run_session(m, chunks, command).command_sent,
        m.command_finished ==> run_session(m, chunks, command).command_finished,
        run_session(m, chunks, command).captured == m.captured + concat_all(chunks),
    decreases chunks.len(),
{
    if chunks.len() > 0 {
        lemma_run_moves_forward(m, chunks.drop_last(), command);
        let prev = run_session(m, chunks.drop_last(), command);
        lemma_step_moves_forward(prev, chunks.last(), command);
        assert(m.captured + concat_all(chunks.drop_last()) + chunks.last() =~= m.captured
            + concat_all(chunks));
    } else {
        assert(m.captured + concat_all(chunks) =~= m.captured);
    }
}

/// The session after the first `i` of `chunks`.
pub open spec fn session_at(m: SessionModel, chunks: Seq<Seq<char>>, command: Seq<char>, i: int) -> SessionModel {
    run_session(m, chunks.take(i), command)
}

/// The replies the session types after the `i`-th of `chunks`.
pub open spec fn replies_at(m: SessionModel, chunks: Seq<Seq<char>>, command: Seq<char>, i: int) -> Seq<Seq<char>> {
    session_replies(session_at(m, chunks, command, i), chunks[i], command)
}

/// The `i`-th of `chunks` is the one after which the command line is typed.
pub open spec fn types_command_at(m: SessionModel, chunks: Seq<Seq<char>>, command: Seq<char>, i: int) -> bool {
    !session_at(m, chunks, command, i).command_sent && session_at(m, chunks, command, i + 1).command_sent
}

/// The `i`-th of `chunks` is the one after which the command counts as
/// finished.
pub open spec fn finishes_at(m: SessionModel, chunks: Seq<Seq<char>>, command: Seq<char>, i: int) -> bool {
    !session_at(m, chunks, command, i).command_finished && session_at(m, chunks, command, i + 1).command_finished
}

/// An answer to a boot or login prompt: the boot device, the boot command or
/// the user name.
pub open spec fn is_login_answer(r: Seq<char>) -> bool {
    r == "0\r"@ || r == "b\r"@ || r == "root\r"@
}

proof fn lemma_session_at_next(m: SessionModel, chunks: Seq<Seq<char>>, command: Seq<char>, i: int)
    requires
        0 <= i < chunks.len(),
    ensures
        session_at(m, chunks, command, i + 1) == next_session(session_at(m, chunks, command, i), chunks[i], command),
{
    assert(chunks.take(i + 1).drop_last() =~= chunks.take(i));
    assert(chunks.take(i + 1).last() == chunks[i]);
}

proof fn lemma_session_at_wf(m: SessionModel, chunks: Seq<Seq<char>>, command: Seq<char>, i: int)
    requires
        session_wf(m),
        0 <= i <= chunks.len(),
    ensures
        session_wf(session_at(m, chunks, command, i)),
{
    lemma_run_moves_forward(m, chunks.take(i), command);
}

proof fn lemma_session_monotone(m: SessionModel, chunks: Seq<Seq<char>>, command: Seq<char>, i: int, k: int)
    requires
        session_wf(m),
        0 <= i <= k <= chunks.len(),
    ensures
        session_at(m, chunks, command, i).command_sent ==> session_at(m, chunks, command, k).command_sent,
        session_at(m, chunks, command, i).command_finished ==> session_at(m, chunks, command, k).command_finished,
    decreases k - i,
{
    if i < k {
        lemma_session_monotone(m, chunks, command, i, k - 1);
        lemma_session_at_next(m, chunks, command, k - 1);
        lemma_session_at_wf(m, chunks, command, k - 1);
        lemma_step_moves_forward(session_at(m, chunks, command, k - 1), chunks[k - 1], command);
    }
}

proof fn lemma_login_needs_prompt(m: SessionModel, chunks: Seq<Seq<char>>, command: Seq<char>, i: int)
    requires
        0 <= i <= chunks.len(),
    ensures
        session_at(m, chunks, command, i).logged_in ==> m.logged_in || exists|j: int|
            0 <= j < i && #[trigger] shows_prompt(chunks[j]),
    decreases i,
{
    if i == 0 {
        assert(chunks.take(0) =~= Seq::<Seq<char>>::empty());
    } else {
        lemma_login_needs_prompt(m, chunks, command, i - 1);
        lemma_session_at_next(m, chunks, command, i - 1);
        let prev = session_at(m, chunks, command, i - 1);
        if session_at(m, chunks, command, i).logged_in && !m.logged_in {
            if !prev.logged_in {
                assert(shows_prompt(chunks[i - 1]));
            } else {
                let j = choose|j: int| 0 <= j < i - 1 && #[trigger] shows_prompt(chunks[j]);
                assert(shows_prompt(chunks[j]));
            }
        }
    }
}

/// Over a whole session, the replies come in order. Before the command
/// line is typed, each piece of output gets at most one reply, an answer to a
/// boot or login prompt. The command line is typed after exactly one piece of
/// output, once a prompt has been seen, and then as the only reply to it; it is
/// never typed again. After it, the only reply is `shutdown`, typed once: after
/// the piece at which the command counts as finished.
pub proof fn lemma_session_replies(m: SessionModel, chunks: Seq<Seq<char>>, command: Seq<char>)
    requires
        session_wf(m),
    ensures
        forall|i: int, j: int|
            0 <= i < j < chunks.len() && #[trigger] types_command_at(m, chunks, command, i)
                ==> !#[trigger] types_command_at(m, chunks, command, j),
        forall|i: int|
            0 <= i < chunks.len() && #[trigger] types_command_at(m, chunks, command, i) ==> replies_at(
                m,
                chunks,
                command,
                i,
            ) == seq![command + "\r"@] && (m.logged_in || exists|j: int|
                0 <= j <= i && #[trigger] shows_prompt(chunks[j])),
        forall|i: int|
            0 <= i < chunks.len() && !session_at(m, chunks, command, i + 1).command_sent ==> #[trigger] replies_at(
                m,
                chunks,
                command,
                i,
            ).len() <= 1 && forall|k: int|
                0 <= k < replies_at(m, chunks, command, i).len() ==> is_login_answer(
                    #[trigger] replies_at(m, chunks, command, i)[k],
                ),
        forall|i: int|
            0 <= i < chunks.len() && session_at(m, chunks, command, i).command_sent ==> #[trigger] replies_at(
                m,
                chunks,
                command,
                i,
            ).len() <= 1 && (replies_at(m, chunks, command, i).len() == 1 <==> finishes_at(
                m,
                chunks,
                command,
                i,
            )) && forall|k: int|
                0 <= k < replies_at(m, chunks, command, i).len() ==> #[trigger] replies_at(
                    m,
                    chunks,
                    command,
                    i,
                )[k] == "shutdown\r"@,
        forall|i: int, j: int|
            0 <= i < j < chunks.len() && #[trigger] finishes_at(m, chunks, command, i) ==> !#[trigger] finishes_at(
                m,
                chunks,
                command,
                j,
            ),
{
    assert forall|i: int, j: int|
        0 <= i < j < chunks.len() && #[trigger] types_command_at(m, chunks, command, i)
            implies !#[trigger] types_command_at(m, chunks, command, j) by {
        lemma_session_monotone(m, chunks, command, i + 1, j);
    }
    assert forall|i: int|
        0 <= i < chunks.len() && #[trigger] types_command_at(m, chunks, command, i) implies replies_at(
            m,
            chunks,
            command,
            i,
        ) == seq![command + "\r"@] && (m.logged_in || exists|j: int|
            0 <= j <= i && #[trigger] shows_prompt(chunks[j])) by {
        lemma_session_at_next(m, chunks, command, i);
        lemma_login_needs_prompt(m, chunks, command, i);
        let prev = session_at(m, chunks, command, i);
        assert(session_replies(prev, chunks[i], command) =~= seq![command + "\r"@]);
        if !m.logged_in {
            if prev.logged_in {
                let j = choose|j: int| 0 <= j < i && #[trigger] shows_prompt(chunks[j]);
                assert(shows_prompt(chunks[j]));
            } else {
                assert(shows_prompt(chunks[i]));
            }
        }
    }
    assert forall|i: int|
        0 <= i < chunks.len() && !session_at(m, chunks, command, i + 1).command_sent implies #[trigger] replies_at(
            m,
            chunks,
            command,
            i,
        ).len() <= 1 && forall|k: int|
            0 <= k < replies_at(m, chunks, command, i).len() ==> is_login_answer(
                #[trigger] replies_at(m, chunks, command, i)[k],
            ) by {
        lemma_session_at_next(m, chunks, command, i);
        lemma_session_monotone(m, chunks, command, i, i + 1);
    }
    assert forall|i: int|
        0 <= i < chunks.len() && session_at(m, chunks, command, i).command_sent implies #[trigger] replies_at(
            m,
            chunks,
            command,
            i,
        ).len() <= 1 && (replies_at(m, chunks, command, i).len() == 1 <==> finishes_at(
            m,
            chunks,
            command,
            i,
        )) && forall|k: int|
            0 <= k < replies_at(m, chunks, command, i).len() ==> #[trigger] replies_at(
                m,
                chunks,
                command,
                i,
            )[k] == "shutdown\r"@ by {
        lemma_session_at_next(m, chunks, command, i);
        lemma_session_at_wf(m, chunks, command, i);
    }
    assert forall|i: int, j: int|
        0 <= i < j < chunks.len() && #[trigger] finishes_at(m, chunks, command, i)
            implies !#[trigger] finishes_at(m, chunks, command, j) by {
        lemma_session_monotone(m, chunks, command, i + 1, j);
    }
}

/// No line of a program's extracted output is a stop line, and every one of
/// them is a line of the session log.
pub proof fn lemma_output_lines_are_log_lines(ls: Seq<Seq<char>>, command: Seq<char>)
    ensures
        forall|i: int|
            0 <= i < output_lines(ls, command).len() ==> !is_stop_line(
                #[trigger] output_lines(ls, command)[i],
            ) && ls.contains(output_lines(ls, command)[i]),
    decreases ls.len(),
{
    if ls.len() > 0 {
        lemma_output_lines_are_log_lines(ls.drop_first(), command);
        if has_substring(ls[0], command) {
            lemma_until_stop_lines(ls.drop_first());
        }
        assert forall|i: int| 0 <= i < output_lines(ls, command).len() implies !is_stop_line(
            #[trigger] output_lines(ls, command)[i],
        ) && ls.contains(output_lines(ls, command)[i]) by {
            if has_substring(ls[0], command) {
                assert(output_lines(ls, command) == lines_until_stop(ls.drop_first()));
                assert(!is_stop_line(lines_until_stop(ls.drop_first())[i]));
                assert(ls.drop_first().contains(lines_until_stop(ls.drop_first())[i]));
                let j = choose|j: int| 0 <= j < ls.drop_first().len() && ls.drop_first()[j]
                    == output_lines(ls, command)[i];
                assert(ls[j + 1] == output_lines(ls, command)[i]);
            } else {
                assert(output_lines(ls, command) == output_lines(ls.drop_first(), command));
                assert(!is_stop_line(output_lines(ls.drop_first(), command)[i]));
                assert(ls.drop_first().contains(output_lines(ls.drop_first(), command)[i]));
                let j = choose|j: int| 0 <= j < ls.drop_first().len() && ls.drop_first()[j]
                    == output_lines(ls, command)[i];
                assert(ls[j + 1] == output_lines(ls, command)[i]);
            }
        }
    }
}

proof fn lemma_output_skips_lines(a: Seq<Seq<char>>, b: Seq<Seq<char>>, command: Seq<char>)
    requires
        forall|i: int| 0 <= i < a.len() ==> !has_substring(#[trigger] a[i], command),
    ensures
        output_lines(a + b, command) == output_lines(b, command),
    decreases a.len(),
{
    if a.len() == 0 {
        assert(a + b =~= b);
    } else {
        assert((a + b)[0] == a[0]);
        assert(!has_substring(a[0], command));
        assert((a + b).drop_first() =~= a.drop_first() + b);
        lemma_output_skips_lines(a.drop_first(), b, command);
    }
}

/// Lines at the start of a session log that do not mention the command do not
/// change the program's output: `p` ends with a newline (or is empty) and none
/// of its lines holds `command`.
pub proof fn lemma_leading_lines_ignored(p: Seq<char>, log: Seq<char>, command: Seq<char>)
    requires
        p.len() == 0 || p.last() == '\n',
        forall|i: int| 0 <= i < lines_of(p).len() ==> !has_substring(#[trigger] lines_of(p)[i], command),
    ensures
        program_output(p + log, command) == program_output(log, command),
{
    crate::lines::lemma_lines_append(p, log);
    lemma_output_skips_lines(lines_of(p), lines_of(log), command);
}

proof fn lemma_until_stop_is_prefix(s: Seq<Seq<char>>, m: int)
    requires
        0 <= m <= s.len(),
        forall|j: int| 0 <= j < m ==> !is_stop_line(#[trigger] s[j]),
        m == s.len() || is_stop_line(s[m]),
    ensures
        lines_until_stop(s) == s.take(m),
    decreases m,
{
    if m == 0 {
        assert(s.take(0) =~= Seq::<Seq<char>>::empty());
    } else {
        let t = s.drop_first();
        assert(!is_stop_line(s[0]));
        assert forall|j: int| 0 <= j < m - 1 implies !is_stop_line(#[trigger] t[j]) by {
            assert(t[j] == s[j + 1]);
        }
        if m < s.len() {
            assert(t[m - 1] == s[m]);
        }
        lemma_until_stop_is_prefix(t, m - 1);
        assert(seq![s[0]] + t.take(m - 1) =~= s.take(m));
    }
}

/// The program's output holds every line of the log after the first line
/// that holds the command (line `k`), up to the first stop line after it
/// (line `m`, or the end of the log): all of them, in order, joined by
/// newlines, however many there are.
pub proof fn lemma_output_is_lines_between(log: Seq<char>, command: Seq<char>, k: int, m: int)
    requires
        0 <= k < m <= lines_of(log).len(),
        has_substring(lines_of(log)[k], command),
        forall|j: int| 0 <= j < k ==> !has_substring(#[trigger] lines_of(log)[j], command),
        forall|j: int| k < j < m ==> !is_stop_line(#[trigger] lines_of(log)[j]),
        m == lines_of(log).len() || is_stop_line(lines_of(log)[m]),
    ensures
        program_output(log, command) == join_with(lines_of(log).subrange(k + 1, m), "\n"@),
{
    let ls = lines_of(log);
    let a = ls.take(k);
    let b = ls.skip(k);
    assert(a + b =~= ls);
    assert forall|i: int| 0 <= i < a.len() implies !has_substring(#[trigger] a[i], command) by {
        assert(a[i] == ls[i]);
    }
    lemma_output_skips_lines(a, b, command);
    assert(b[0] == ls[k]);
    let t = b.drop_first();
    assert(t =~= ls.skip(k + 1));
    assert forall|j: int| 0 <= j < m - k - 1 implies !is_stop_line(#[trigger] t[j]) by {
        assert(t[j] == ls[k + 1 + j]);
    }
    if m < ls.len() {
        assert(t[m - k - 1] == ls[m]);
    }
    lemma_until_stop_is_prefix(t, m - k - 1);
    assert(t.take(m - k - 1) =~= ls.subrange(k + 1, m));
}

/// A log in which no line holds the command yields no output.
pub proof fn lemma_no_command_no_output(log: Seq<char>, command: Seq<char>)
    requires
        forall|j: int| 0 <= j < lines_of(log).len() ==> !has_substring(#[trigger] lines_of(log)[j], command),
    ensures
        program_output(log, command) == Seq::<char>::empty(),
{
    let ls = lines_of(log);
    lemma_output_skips_lines(ls, Seq::<Seq<char>>::empty(), command);
    assert(ls + Seq::<Seq<char>>::empty() =~= ls);
}

proof fn lemma_until_stop_lines(ls: Seq<Seq<char>>)
    ensures
        forall|i: int|
            0 <= i < lines_until_stop(ls).len() ==> !is_stop_line(#[trigger] lines_until_stop(ls)[i])
                && ls.contains(lines_until_stop(ls)[i]),
    decreases ls.len(),
{
    if ls.len() > 0 && !is_stop_line(ls[0]) {
        lemma_until_stop_lines(ls.drop_first());
        assert forall|i: int| 0 <= i < lines_until_stop(ls).len() implies !is_stop_line(
            #[trigger] lines_until_stop(ls)[i],
        ) && ls.contains(lines_until_stop(ls)[i]) by {
            if i == 0 {
                assert(ls[0] == lines_until_stop(ls)[0]);
            } else {
                assert(lines_until_stop(ls)[i] == lines_until_stop(ls.drop_first())[i - 1]);
                let j = choose|j: int| 0 <= j < ls.drop_first().len() && ls.drop_first()[j]
                    == lines_until_stop(ls.drop_first())[i - 1];
                assert(ls[j + 1] == lines_until_stop(ls)[i]);
            }
        }
    }
}

impl Session {
    /// A session that has seen nothing yet.
    pub fn new() -> (s: Self)
        ensures
            !s@.logged_in,
            !s@.command_sent,
            !s@.command_finished,
            s@.captured == Seq::<char>::empty(),
            session_wf(s@),
    {
        Session {
            logged_in: false,
            command_sent: false,
            command_finished: false,
            captured: String::new(),
        }
    }

    /// Takes in `chunk`, a piece of emulator output, in a session running
    /// `command`, and says how to go on.
    pub fn step(&mut self, chunk: &str, command: &str) -> (r: SessionStep)
        ensures
            final(self)@ == next_session(old(self)@, chunk@, command@),
            strings_view(r.replies@) == session_replies(old(self)@, chunk@, command@),
            r.halt == session_halts(old(self)@, chunk@, command@),
            r.skip_pause == session_skips_pause(old(self)@, chunk@),
    {
        self.captured.append(chunk);
        let mut replies: Vec<String> = Vec::new();
        let mut reply_given = false;
        if !self.logged_in {
            if str_contains(chunk, "bootdev:") {
                replies.push(String::from_str("0\r"));
                reply_given = true;
            } else if str_contains(chunk, "boot:") || str_contains(chunk, "Boot>") {
                replies.push(String::from_str("b\r"));
                reply_given = true;
            } else if str_contains(chunk, "login:") {
                replies.push(String::from_str("root\r"));
                reply_given = true;
            } else if str_contains(chunk, "# ") || str_contains(chunk, "$ ") {
                self.logged_in = true;
            }
        }
        let ghost first = strings_view(replies@);
        if self.logged_in && !self.command_sent {
            replies.push(concat2(command, "\r"));
            self.command_sent = true;
            assert(strings_view(replies@) =~= first.push(command@ + "\r"@));
            return SessionStep { replies, halt: false, skip_pause: true };
        }
        if self.command_sent && !self.command_finished {
            let captured = self.captured.as_str();
            if str_contains(captured, "# shutdown") || str_ends_with(captured, "# ")
                || str_ends_with(captured, "$ ") {
                replies.push(String::from_str("shutdown\r"));
                self.command_finished = true;
                assert(strings_view(replies@) =~= first.push("shutdown\r"@));
            }
        }
        let halt = self.command_finished && (str_contains(chunk, "Halted") || str_contains(
            chunk,
            "System halted",
        ) || str_contains(chunk, "halt:"));
        SessionStep { replies, halt, skip_pause: false }
    }

    /// The program's output once the session is over (see
    /// [`program_output`]), or an error when the command was never sent.
    pub fn finish(&self, command: &str) -> (r: Result<String, SessionError>)
        ensures
            !self.command_sent ==> r == Err::<String, SessionError>(SessionError::LoginTimeout),
            self.command_sent ==> r is Ok && r->Ok_0@ == program_output(self.captured@, command@),
    {
        if !self.command_sent {
            return Err(SessionError::LoginTimeout);
        }
        Ok(extract_program_output(self.captured.as_str(), command))
    }
}

/// The directory emulators run in, `.fuzix/emulator_work`.
pub fn work_dir() -> (r: String)
    ensures
        r@ == join_spec(".fuzix"@, "emulator_work"@),
{
    join(".fuzix", "emulator_work")
}

/// The flag that selects the 68k variant on the 68knano board, for a CPU
/// named `680..`: `-1` for the 68010, `-2` for the 68020, `-0` otherwise; none
/// for a CPU of another name.
pub open spec fn cpu_flag(cpu: Seq<char>) -> Seq<Seq<char>> {
    if has_prefix(cpu, "680"@) {
        let rest = cpu.skip(3);
        if rest == "10"@ {
            seq!["-1"@]
        } else if rest == "20"@ {
            seq!["-2"@]
        } else {
            seq!["-0"@]
        }
    } else {
        Seq::empty()
    }
}

/// The command-line arguments of the emulator `emulator` for a target CPU
/// `cpu`, given whether its working directory holds the 68knano ROM and disk:
/// only the 68knano board takes any.
pub open spec fn launch_args_spec(emulator: Seq<char>, cpu: Seq<char>, rom_present: bool, ide_present: bool) -> Seq<Seq<char>> {
    if emulator == "68knano"@ {
        seq!["-f"@] + cpu_flag(cpu) + (if rom_present {
            seq!["-r"@, "68knano.rom"@]
        } else {
            Seq::empty()
        }) + (if ide_present {
            seq!["-i"@, "68knano.ide"@]
        } else {
            Seq::empty()
        })
    } else {
        Seq::empty()
    }
}

impl<'a> EmulatorRunner<'a> {
    /// A runner for `config` with `toolchain` and the disk images of `disk`.
    pub fn new(config: &'a FuzixConfig, toolchain: &'a ToolchainManager, disk: &'a DiskManager<'a>) -> (r: Self)
        ensures
            *r.config == *config,
            *r.toolchain == *toolchain,
            *r.disk == *disk,
    {
        EmulatorRunner { config, toolchain, disk }
    }

    /// The emulator to use: the override when one is given, the configured one
    /// otherwise.
    pub fn emulator_name(&self, emulator_override: Option<&str>) -> (r: String)
        ensures
            r@ == match emulator_override {
                Some(e) => e@,
                None => self.config.target.emulator@,
            },
    {
        match emulator_override {
            Some(e) => String::from_str(e),
            None => self.config.target.emulator.clone(),
        }
    }

    /// How many seconds a session may last: the override when one is given, the
    /// configured timeout otherwise.
    pub fn session_timeout(&self, timeout_override: Option<u64>) -> (r: u64)
        ensures
            r == match timeout_override {
                Some(t) => t,
                None => self.config.target.timeout,
            },
    {
        match timeout_override {
            Some(t) => t,
            None => self.config.target.timeout,
        }
    }

    /// The command-line arguments of `emulator` (see [`launch_args_spec`]).
    pub fn launch_args(&self, emulator: &str, rom_present: bool, ide_present: bool) -> (r: Vec<String>)
        ensures
            strings_view(r@) == launch_args_spec(emulator@, self.config.target.cpu@, rom_present, ide_present),
    {
        let mut r: Vec<String> = Vec::new();
        if !str_eq(emulator, "68knano") {
            assert(strings_view(r@) =~= Seq::<Seq<char>>::empty());
            return r;
        }
        r.push(String::from_str("-f"));
        let cpu = self.config.target.cpu.as_str();
        let ghost cpuv = cpu@;
        if crate::text::str_starts_with(cpu, "680") {
            proof {
                reveal_strlit("680");
            }
            let rest = cpu.substring_char(3, cpu.unicode_len());
            assert(rest@ == cpuv.skip(3));
            if str_eq(rest, "10") {
                r.push(String::from_str("-1"));
            } else if str_eq(rest, "20") {
                r.push(String::from_str("-2"));
            } else {
                r.push(String::from_str("-0"));
            }
        }
        let ghost head = strings_view(r@);
        assert(head =~= seq!["-f"@] + cpu_flag(cpuv));
        if rom_present {
            r.push(String::from_str("-r"));
            r.push(String::from_str("68knano.rom"));
        }
        let ghost mid = strings_view(r@);
        assert(mid =~= head + (if rom_present {
            seq!["-r"@, "68knano.rom"@]
        } else {
            Seq::empty()
        }));
        if ide_present {
            r.push(String::from_str("-i"));
            r.push(String::from_str("68knano.ide"));
        }
        assert(strings_view(r@) =~= mid + (if ide_present {
            seq!["-i"@, "68knano.ide"@]
        } else {
            Seq::empty()
        }));
        r
    }

    /// The steps that prepare the working directory of `emulator`, with the
    /// project's root and boot images at `root` and `boot`: the 68knano board
    /// gets its ROM and a link to the root image; the 68000 boards get the
    /// boot data and two links to the root image; the CP/M simulator gets a
    /// `disks` directory with links to both images; other emulators need
    /// nothing. Old links are removed first.
    pub open spec fn workdir_steps_spec(&self, emulator: Seq<char>, root: Seq<char>, boot: Seq<char>) -> Seq<(StepKind, Seq<char>, Seq<char>)> {
        let work = join_spec(".fuzix"@, "emulator_work"@);
        let emu_dir = self.toolchain.emulators_dir_spec();
        if emulator == "68knano"@ {
            seq![
                (StepKind::CopyIfPresent, join_spec(emu_dir, "68knano.rom"@), join_spec(work, "68knano.rom"@)),
                (StepKind::Remove, Seq::empty(), join_spec(work, "68knano.ide"@)),
                (StepKind::Link, root, join_spec(work, "68knano.ide"@)),
            ]
        } else if emulator == "v68"@ || emulator == "tiny68k"@ {
            seq![
                (StepKind::CopyIfPresent, join_spec(emu_dir, "boot.dat"@), join_spec(work, "boot.dat"@)),
                (StepKind::Remove, Seq::empty(), join_spec(work, "disk.img"@)),
                (StepKind::Remove, Seq::empty(), join_spec(work, "drive.ide"@)),
                (StepKind::Link, root, join_spec(work, "disk.img"@)),
                (StepKind::Link, root, join_spec(work, "drive.ide"@)),
            ]
        } else if emulator == "cpmsim"@ {
            let disks = join_spec(work, "disks"@);
            seq![
                (StepKind::CreateDir, Seq::empty(), disks),
                (StepKind::Remove, Seq::empty(), join_spec(disks, "drivea.dsk"@)),
                (StepKind::Remove, Seq::empty(), join_spec(disks, "drivei.dsk"@)),
                (StepKind::LinkRequired, boot, join_spec(disks, "drivea.dsk"@)),
                (StepKind::LinkRequired, root, join_spec(disks, "drivei.dsk"@)),
            ]
        } else {
            Seq::empty()
        }
    }

    /// The 68000 boards share one working-directory plan: `tiny68k` is
    /// prepared exactly as `v68`, which copies the boot data and links the
    /// root image as both `disk.img` and `drive.ide`; the 68knano board links
    /// it as `68knano.ide`. Every 68k board thus starts with the project's
    /// root image.
    pub proof fn lemma_68k_boards_link_root(&self, root: Seq<char>, boot: Seq<char>)
        ensures
            self.workdir_steps_spec("tiny68k"@, root, boot) == self.workdir_steps_spec(
                "v68"@,
                root,
                boot,
            ),
            self.workdir_steps_spec("v68"@, root, boot).contains(
                (
                    StepKind::CopyIfPresent,
                    join_spec(self.toolchain.emulators_dir_spec(), "boot.dat"@),
                    join_spec(join_spec(".fuzix"@, "emulator_work"@), "boot.dat"@),
                ),
            ),
            self.workdir_steps_spec("v68"@, root, boot).contains(
                (StepKind::Link, root, join_spec(join_spec(".fuzix"@, "emulator_work"@), "disk.img"@)),
            ),
            self.workdir_steps_spec("v68"@, root, boot).contains(
                (StepKind::Link, root, join_spec(join_spec(".fuzix"@, "emulator_work"@), "drive.ide"@)),
            ),
            self.workdir_steps_spec("68knano"@, root, boot).contains(
                (StepKind::Link, root, join_spec(join_spec(".fuzix"@, "emulator_work"@), "68knano.ide"@)),
            ),
    {
        reveal_strlit("tiny68k");
        reveal_strlit("v68");
        reveal_strlit("68knano");
        assert("tiny68k"@ != "68knano"@) by {
            assert("tiny68k"@[0] != "68knano"@[0]);
        }
        assert("v68"@ != "68knano"@) by {
            assert("v68"@.len() != "68knano"@.len());
        }
        let v = self.workdir_steps_spec("v68"@, root, boot);
        let work = join_spec(".fuzix"@, "emulator_work"@);
        assert(v[0] == (
            StepKind::CopyIfPresent,
            join_spec(self.toolchain.emulators_dir_spec(), "boot.dat"@),
            join_spec(work, "boot.dat"@),
        ));
        assert(v[3] == (StepKind::Link, root, join_spec(work, "disk.img"@)));
        assert(v[4] == (StepKind::Link, root, join_spec(work, "drive.ide"@)));
        let n = self.workdir_steps_spec("68knano"@, root, boot);
        assert(n[2] == (StepKind::Link, root, join_spec(work, "68knano.ide"@)));
    }

    /// See [`Self::workdir_steps_spec`].
    pub fn workdir_steps(&self, emulator: &str, root: &str, boot: &str) -> (r: Vec<FileStep>)
        ensures
            steps_view(r@) == self.workdir_steps_spec(emulator@, root@, boot@),
    {
        let work = work_dir();
        let emu_dir = self.toolchain.emulators_dir();
        let w = work.as_str();
        let mut r: Vec<FileStep> = Vec::new();
        proof {
            reveal_strlit("");
            assert(""@ =~= Seq::<char>::empty());
        }
        if str_eq(emulator, "68knano") {
            let rom_src = join(emu_dir.as_str(), "68knano.rom");
            let rom_dst = join(w, "68knano.rom");
            let ide = join(w, "68knano.ide");
            r.push(step(StepKind::CopyIfPresent, rom_src.as_str(), rom_dst.as_str()));
            r.push(step(StepKind::Remove, "", ide.as_str()));
            r.push(step(StepKind::Link, root, ide.as_str()));
            assert(steps_view(r@) =~= self.workdir_steps_spec(emulator@, root@, boot@));
        } else if str_eq(emulator, "v68") || str_eq(emulator, "tiny68k") {
            let dat_src = join(emu_dir.as_str(), "boot.dat");
            let dat_dst = join(w, "boot.dat");
            let disk_img = join(w, "disk.img");
            let drive_ide = join(w, "drive.ide");
            r.push(step(StepKind::CopyIfPresent, dat_src.as_str(), dat_dst.as_str()));
            r.push(step(StepKind::Remove, "", disk_img.as_str()));
            r.push(step(StepKind::Remove, "", drive_ide.as_str()));
            r.push(step(StepKind::Link, root, disk_img.as_str()));
            r.push(step(StepKind::Link, root, drive_ide.as_str()));
            assert(steps_view(r@) =~= self.workdir_steps_spec(emulator@, root@, boot@));
        } else if str_eq(emulator, "cpmsim") {
            let disks = join(w, "disks");
            let drive_a = join(disks.as_str(), "drivea.dsk");
            let drive_i = join(disks.as_str(), "drivei.dsk");
            r.push(step(StepKind::CreateDir, "", disks.as_str()));
            r.push(step(StepKind::Remove, "", drive_a.as_str()));
            r.push(step(StepKind::Remove, "", drive_i.as_str()));
            r.push(step(StepKind::LinkRequired, boot, drive_a.as_str()));
            r.push(step(StepKind::LinkRequired, root, drive_i.as_str()));
            assert(steps_view(r@) =~= self.workdir_steps_spec(emulator@, root@, boot@));
        }
        assert(steps_view(r@) =~= self.workdir_steps_spec(emulator@, root@, boot@));
        r
    }
}

} // verus!
