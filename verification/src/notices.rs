//! What the dashboard says: dialog texts, the status line, and the offer to restart
//! interrupted work.
use vstd::prelude::*;

use crate::model::CommentRow;
use crate::text::decimal;
use crate::text::has_item;
use crate::text::join2;
use crate::text::join3;
use crate::text::owned;
use crate::text::same_ignoring_case;
use crate::text::trim;
use crate::toggle::OrderedToggleItem;

verus! {

/// How long a message stays on the status line.
pub const STATUS_MESSAGE_DURATION_MS: u64 = 5000;

/// A line of a dialog.
#[derive(Debug)]
pub struct DialogLine {
    pub text: String,
    pub attention: bool,
}

/// A line of a dialog, as contracts speak of it.
#[verifier::ext_equal]
pub struct LineView {
    pub text: Seq<char>,
    pub attention: bool,
}

impl DialogLine {
    /// The line as contracts speak of it.
    pub open spec fn view(&self) -> LineView {
        LineView { text: self.text@, attention: self.attention }
    }
}

/// The lines as contracts speak of them.
pub open spec fn line_views(lines: Seq<DialogLine>) -> Seq<LineView> {
    Seq::new(lines.len(), |i: int| lines[i]@)
}

/// A line that asks for no attention.
pub open spec fn plain_line(text: Seq<char>) -> LineView {
    LineView { text, attention: false }
}

fn add_line(lines: &mut Vec<DialogLine>, text: String, attention: bool)
    ensures
        line_views(final(lines)@) == line_views(old(lines)@).push(
            (LineView { text: text@, attention }),
        ),
{
    lines.push(DialogLine { text, attention });
    assert(line_views(lines@) =~= line_views(old(lines)@).push(
        (LineView { text: text@, attention }),
    ));
}

/// The lines of the warnings, or the line that says that there are none.
pub open spec fn warning_lines(warnings: Seq<Seq<char>>, none: Seq<char>) -> Seq<LineView> {
    if warnings.len() == 0 {
        seq![plain_line(none)]
    } else {
        Seq::new(warnings.len(), |i: int| LineView { text: warnings[i], attention: true })
    }
}

/// The lines that name a worktree and its warnings.
pub open spec fn worktree_lines(
    branch: Seq<char>,
    path: Seq<char>,
    warnings: Seq<Seq<char>>,
    none: Seq<char>,
) -> Seq<LineView> {
    seq![plain_line("branch: "@ + branch), plain_line("path: "@ + path)] + warning_lines(
        warnings,
        none,
    )
}

fn describe_worktree(branch: &str, path: &str, warnings: &Vec<String>, none: &str) -> (r: Vec<
    DialogLine,
>)
    ensures
        line_views(r@) == worktree_lines(
            branch@,
            path@,
            crate::text::texts(warnings@),
            none@,
        ),
{
    let mut lines: Vec<DialogLine> = Vec::new();
    add_line(&mut lines, join2("branch: ", branch), false);
    add_line(&mut lines, join2("path: ", path), false);
    let ghost head = seq![plain_line("branch: "@ + branch@), plain_line("path: "@ + path@)];
    assert(line_views(lines@) =~= head);
    if warnings.len() == 0 {
        add_line(&mut lines, owned(none), false);
        assert(line_views(lines@) =~= head + seq![plain_line(none@)]);
        return lines;
    }
    let ghost all = crate::text::texts(warnings@);
    let ghost marked = warning_lines(all, none@);
    let mut i: usize = 0;
    assert(head + marked.take(0) =~= head);
    while i < warnings.len()
        invariant
            i <= warnings.len(),
            warnings.len() > 0,
            all == crate::text::texts(warnings@),
            marked == warning_lines(all, none@),
            line_views(lines@) == head + marked.take(i as int),
        decreases warnings.len() - i,
    {
        add_line(&mut lines, warnings[i].clone(), true);
        assert(line_views(lines@) =~= head + marked.take(i + 1));
        i += 1;
    }
    assert(marked.take(warnings.len() as int) =~= marked);
    lines
}

/// What is said before a worktree is archived.
pub open spec fn archive_notice(
    branch: Seq<char>,
    path: Seq<char>,
    warnings: Seq<Seq<char>>,
) -> Seq<LineView> {
    worktree_lines(
        branch,
        path,
        warnings,
        "No warnings detected; worktree files stay on disk."@,
    ).push(
        plain_line(
            "Archive hides this worktree from normal navigation. Restore with `git worktree list` and remove the archive marker from Prism state if needed."@,
        ),
    )
}

/// What the question before archiving a worktree says.
pub fn archive_lines(branch: &str, path: &str, warnings: &Vec<String>) -> (r: Vec<DialogLine>)
    ensures
        line_views(r@) == archive_notice(branch@, path@, crate::text::texts(warnings@)),
        line_views(r@) == worktree_lines(
            branch@,
            path@,
            crate::text::texts(warnings@),
            "No warnings detected; worktree files stay on disk."@,
        ).push(
            plain_line(
                "Archive hides this worktree from normal navigation. Restore with `git worktree list` and remove the archive marker from Prism state if needed."@,
            ),
        ),
{
    let mut lines: Vec<DialogLine> = describe_worktree(
        branch,
        path,
        warnings,
        "No warnings detected; worktree files stay on disk.",
    );
    add_line(
        &mut lines,
        owned(
            "Archive hides this worktree from normal navigation. Restore with `git worktree list` and remove the archive marker from Prism state if needed.",
        ),
        false,
    );
    lines
}

/// What is said before a worktree is deleted.
pub open spec fn delete_notice(
    branch: Seq<char>,
    path: Seq<char>,
    warnings: Seq<Seq<char>>,
) -> Seq<LineView> {
    worktree_lines(branch, path, warnings, "No warnings detected."@)
}

/// What the question before deleting a worktree says.
pub fn delete_lines(branch: &str, path: &str, warnings: &Vec<String>) -> (r: Vec<DialogLine>)
    ensures
        line_views(r@) == delete_notice(branch@, path@, crate::text::texts(warnings@)),
        line_views(r@) == worktree_lines(
            branch@,
            path@,
            crate::text::texts(warnings@),
            "No warnings detected."@,
        ),
{
    describe_worktree(branch, path, warnings, "No warnings detected.")
}

/// The lines that show a comment. An unresolved one asks for attention; a comment
/// without context has no line for it.
pub open spec fn comment_view(row: CommentRow) -> Seq<LineView> {
    let head = seq![
        plain_line("kind: "@ + row.kind@),
        plain_line("author: "@ + row.author@),
        LineView {
            text: "resolved: "@ + row.resolved@,
            attention: crate::text::lower(row.resolved@) == crate::text::lower("no"@),
        },
    ];
    let context = if crate::text::trimmed(row.context@).len() == 0 {
        head
    } else {
        head.push(plain_line("context: "@ + row.context@))
    };
    context.push(plain_line(Seq::empty())).push(plain_line(row.body@))
}

/// The lines that show a comment.
pub fn comment_lines(row: &CommentRow) -> (r: Vec<DialogLine>)
    ensures
        line_views(r@) == comment_view(*row),
{
    let mut lines: Vec<DialogLine> = Vec::new();
    add_line(&mut lines, join2("kind: ", row.kind.as_str()), false);
    add_line(&mut lines, join2("author: ", row.author.as_str()), false);
    let open: bool = same_ignoring_case(row.resolved.as_str(), "no");
    add_line(&mut lines, join2("resolved: ", row.resolved.as_str()), open);
    assert(line_views(lines@) =~= seq![
        plain_line("kind: "@ + row.kind@),
        plain_line("author: "@ + row.author@),
        LineView { text: "resolved: "@ + row.resolved@, attention: open },
    ]);
    let context: String = trim(row.context.as_str());
    if context.as_str().unicode_len() > 0 {
        add_line(&mut lines, join2("context: ", row.context.as_str()), false);
    }
    let empty: String = String::new();
    assert(empty@ =~= Seq::empty());
    add_line(&mut lines, empty, false);
    add_line(&mut lines, row.body.clone(), false);
    lines
}

// ---------------------------------------------------------------------------
// The status line
// ---------------------------------------------------------------------------

/// The message of the status line, and the time until which it stays.
#[derive(Debug)]
pub struct StatusLine {
    pub message: Option<String>,
    pub until_ms: Option<u64>,
}

/// The end of a message's time.
pub open spec fn until_of(now_ms: u64) -> u64 {
    if now_ms + STATUS_MESSAGE_DURATION_MS > u64::MAX {
        u64::MAX
    } else {
        (now_ms + STATUS_MESSAGE_DURATION_MS) as u64
    }
}

impl StatusLine {
    /// A status line without a message.
    pub fn new() -> (r: Self)
        ensures
            r.message is None,
            r.until_ms is None,
    {
        StatusLine { message: None, until_ms: None }
    }

    /// Shows a message for a while.
    pub fn show_message(&mut self, message: &str, now_ms: u64)
        ensures
            crate::text::opt_text(final(self).message) == Some(message@),
            final(self).until_ms == Some(until_of(now_ms)),
    {
        self.message = Some(owned(message));
        self.until_ms = Some(now_ms.saturating_add(STATUS_MESSAGE_DURATION_MS));
    }

    /// Shows an error with what it came from.
    pub fn show_error(&mut self, context: &str, error: &str, now_ms: u64)
        ensures
            crate::text::opt_text(final(self).message) == Some(context@ + ": "@ + error@),
            final(self).until_ms == Some(until_of(now_ms)),
    {
        let message: String = join3(context, ": ", error);
        self.show_message(message.as_str(), now_ms);
    }

    /// Takes the message away once its time is over; says whether it did.
    pub fn expire_status_message(&mut self, now_ms: u64) -> (r: bool)
        ensures
            r == (old(self).until_ms matches Some(until) && now_ms >= until),
            r ==> final(self).message is None && final(self).until_ms is None,
            !r ==> final(self).message == old(self).message && final(self).until_ms
                == old(self).until_ms,
    {
        match self.until_ms {
            Some(until) => {
                if now_ms >= until {
                    self.message = None;
                    self.until_ms = None;
                    return true;
                }
            },
            None => {},
        }
        false
    }
}

// ---------------------------------------------------------------------------
// Interrupted work
// ---------------------------------------------------------------------------

/// A workflow that the store knows of.
#[derive(Debug)]
pub struct WorkflowEntry {
    /// Whether it was interrupted and can be restarted.
    pub recover: bool,
    pub repo_label: String,
    pub worktree: String,
    pub step: Option<String>,
    pub heartbeat_unix_ms: Option<i64>,
}

/// A whole number, written in decimal.
pub open spec fn int_text(n: int) -> Seq<char> {
    if n < 0 {
        "-"@ + crate::text::decimal_text((-n) as nat)
    } else {
        crate::text::decimal_text(n as nat)
    }
}

/// A division that rounds towards zero.
pub open spec fn toward_zero(n: int, d: int) -> int {
    if n < 0 {
        -((-n) / d)
    } else {
        n / d
    }
}

/// The time since a heartbeat in milliseconds, within the numbers that fit.
pub open spec fn age_of(now_ms: i64, heartbeat_ms: Option<i64>) -> int {
    match heartbeat_ms {
        Some(heartbeat) => if now_ms - heartbeat > i64::MAX {
            i64::MAX as int
        } else if now_ms - heartbeat < i64::MIN {
            i64::MIN as int
        } else {
            now_ms - heartbeat
        },
        None => 0,
    }
}

/// An age in words: minutes from one minute on, seconds below.
pub open spec fn age_text(age_ms: int) -> Seq<char> {
    if age_ms >= 60000 {
        int_text(age_ms / 60000) + "m ago"@
    } else {
        int_text(toward_zero(age_ms, 1000)) + "s ago"@
    }
}

/// What the offer says of a workflow.
pub open spec fn entry_label(entry: WorkflowEntry, now_ms: i64) -> Seq<char> {
    let step = match entry.step {
        Some(step) => step@,
        None => "Workflow"@,
    };
    entry.repo_label@ + " / "@ + entry.worktree@ + "  Workflow  "@ + step + "  "@ + age_text(
        age_of(now_ms, entry.heartbeat_unix_ms),
    )
}

fn signed(n: i64) -> (r: String)
    ensures
        r@ == int_text(n as int),
{
    if n >= 0 {
        decimal(n as u64)
    } else {
        let positive: i128 = -(n as i128);
        let digits: String = decimal(positive as u64);
        join2("-", digits.as_str())
    }
}

fn age_since(now_ms: i64, heartbeat_ms: Option<i64>) -> (r: i64)
    ensures
        r == age_of(now_ms, heartbeat_ms),
{
    match heartbeat_ms {
        Some(heartbeat) => {
            let exact: i128 = now_ms as i128 - heartbeat as i128;
            if exact > i64::MAX as i128 {
                i64::MAX
            } else if exact < i64::MIN as i128 {
                i64::MIN
            } else {
                exact as i64
            }
        },
        None => 0,
    }
}

fn age_words(age_ms: i64) -> (r: String)
    ensures
        r@ == age_text(age_ms as int),
{
    if age_ms >= 60000 {
        let minutes: String = signed(age_ms / 60000);
        return join2(minutes.as_str(), "m ago");
    }
    let seconds: i64 = if age_ms >= 0 {
        age_ms / 1000
    } else {
        let positive: i128 = -(age_ms as i128);
        let whole: i128 = positive / 1000;
        -(whole as i64)
    };
    let text: String = signed(seconds);
    join2(text.as_str(), "s ago")
}

/// The positions of the workflows that can be restarted, among the first `n`.
pub open spec fn recoverable(entries: Seq<WorkflowEntry>, n: nat) -> Seq<usize>
    decreases n,
{
    if n == 0 {
        Seq::empty()
    } else {
        let before = recoverable(entries, (n - 1) as nat);
        if entries[n - 1].recover {
            before.push((n - 1) as usize)
        } else {
            before
        }
    }
}

/// The positions of the workflows that can be restarted.
pub fn recovery_candidates(entries: &Vec<WorkflowEntry>) -> (r: Vec<usize>)
    ensures
        r@ == recoverable(entries@, entries@.len()),
        forall|k: int| 0 <= k < r.len() ==> (#[trigger] r@[k]) < entries.len(),
{
    let mut out: Vec<usize> = Vec::new();
    let mut i: usize = 0;
    while i < entries.len()
        invariant
            i <= entries.len(),
            out@ == recoverable(entries@, i as nat),
            forall|k: int| 0 <= k < out.len() ==> (#[trigger] out@[k]) < entries.len(),
        decreases entries.len() - i,
    {
        if entries[i].recover {
            out.push(i);
        }
        i += 1;
    }
    out
}

/// The switches of the offer: one for each workflow that can be restarted, all off.
/// A switch is named by its position in the offer.
pub fn recovery_items(entries: &Vec<WorkflowEntry>, now_ms: i64) -> (r: Vec<OrderedToggleItem>)
    ensures
        r.len() == recoverable(entries@, entries@.len()).len(),
        forall|i: int|
            #![trigger r@[i]]
            0 <= i < r.len() ==> {
                &&& r@[i].id@ == crate::text::decimal_text(i as nat)
                &&& r@[i].label@ == entry_label(
                    entries@[recoverable(entries@, entries@.len())[i] as int],
                    now_ms,
                )
                &&& !r@[i].enabled
            },
{
    let list: Vec<usize> = recovery_candidates(entries);
    let mut out: Vec<OrderedToggleItem> = Vec::new();
    let mut i: usize = 0;
    while i < list.len()
        invariant
            i <= list.len(),
            out.len() == i,
            forall|k: int| 0 <= k < list.len() ==> (#[trigger] list@[k]) < entries.len(),
            forall|k: int|
                #![trigger out@[k]]
                0 <= k < i ==> {
                    &&& out@[k].id@ == crate::text::decimal_text(k as nat)
                    &&& out@[k].label@ == entry_label(entries@[list@[k] as int], now_ms)
                    &&& !out@[k].enabled
                },
        decreases list.len() - i,
    {
        let entry: &WorkflowEntry = &entries[list[i]];
        let age: String = age_words(age_since(now_ms, entry.heartbeat_unix_ms));
        let mut label: String = join3(entry.repo_label.as_str(), " / ", entry.worktree.as_str());
        label.append("  Workflow  ");
        match &entry.step {
            Some(step) => {
                label.append(step.as_str());
            },
            None => {
                label.append("Workflow");
            },
        }
        label.append("  ");
        label.append(age.as_str());
        out.push(OrderedToggleItem { id: decimal(i as u64), label, enabled: false });
        i += 1;
    }
    out
}

/// Which workflows of the offer are to be restarted: those whose switches were left
/// on. Every other one of the offer is decided against.
pub fn recovery_decisions(count: usize, chosen: &Vec<String>) -> (r: Vec<bool>)
    ensures
        r.len() == count,
        forall|i: int|
            0 <= i < count ==> (#[trigger] r@[i]) == crate::text::texts(chosen@).contains(
                crate::text::decimal_text(i as nat),
            ),
{
    let mut out: Vec<bool> = Vec::new();
    let mut i: usize = 0;
    while i < count
        invariant
            i <= count,
            out.len() == i,
            forall|k: int|
                0 <= k < i ==> (#[trigger] out@[k]) == crate::text::texts(chosen@).contains(
                    crate::text::decimal_text(k as nat),
                ),
        decreases count - i,
    {
        let id: String = decimal(i as u64);
        out.push(has_item(chosen, id.as_str()));
        i += 1;
    }
    out
}

/// Two workflows of the offer never share a switch.
pub proof fn law_switches_are_told_apart(first: nat, second: nat)
    requires
        crate::text::decimal_text(first) == crate::text::decimal_text(second),
    ensures
        first == second,
{
    crate::text::law_decimal_round_trip(first);
    crate::text::law_decimal_round_trip(second);
}

// ---------------------------------------------------------------------------
// Key bindings
// ---------------------------------------------------------------------------

/// The lines of the help dialog.
pub open spec fn keybinding_lines() -> Seq<Seq<char>> {
    seq![
        "1 / 2 / 3    focus status / repos / worktrees sidebars; 3 toggles repo/all worktrees"@,
        "0            focus main panel for the selected sidebar"@,
        "Tab / Shift-Tab  move focus between panels"@,
        "[ / ]        switch repository views or worktree list scope"@,
        "h/l, left/right arrows  repos: switch view"@,
        "Enter       repos: open default-branch tmux; worktrees: open agent; main comments: details"@,
        "Ctrl-/       open tmux window 3: terminal"@,
        "p            repos: pull default branch"@,
        "W / Space w w  open the flat Workflow run/edit picker"@,
        "Space w a    create an AI one-off Workflow for the selected worktree"@,
        "Space c      open the unified configuration tree"@,
        "{ / }        cycle Workflow Runs for the selected worktree"@,
        "u / f        pause or resume the selected Workflow Run / retry its failed Step"@,
        "j/k          move the selection in the focused dashboard or comments panel"@,
        "Space g R    main comments: resolve all inline review conversations"@,
        "r            repos: reorder or remove repositories"@,
        "C            repos: open a worktree for a remote pull request"@,
        "c            repos: create worktree session in selected repo"@,
        "> / <        worktrees: raise/lower priority"@,
        "x            cancel selected Workflow Run, otherwise abort selected agent session"@,
        "M            worktrees: migrate selected worktree to the default harness"@,
        "o            worktrees: open the selected Worktrunk development URL"@,
        "L            worktrees: inspect bounded Worktrunk hook logs"@,
        "/            search/filter focused panel"@,
        "?            show keybindings; / filters this dialog"@,
        "D            archive non-default worktree/session"@,
        "U            repos: choose an archived worktree to unarchive"@,
        "X            permanently delete non-default worktree/session"@,
        "j/k, up/down move selection"@,
        "g g / G      top / bottom"@,
        "r            refresh outside the repos sidebar"@,
        "q, Ctrl-C    quit"@,
    ]
}

fn add_text(lines: &mut Vec<String>, text: &str)
    ensures
        crate::text::texts(final(lines)@) == crate::text::texts(old(lines)@).push(text@),
{
    lines.push(owned(text));
    assert(crate::text::texts(lines@) =~= crate::text::texts(old(lines)@).push(text@));
}

/// The lines of the help dialog.
pub fn keybinding_items() -> (r: Vec<String>)
    ensures
        crate::text::texts(r@) == keybinding_lines(),
{
    let mut lines: Vec<String> = Vec::new();
    add_text(
        &mut lines,
        "1 / 2 / 3    focus status / repos / worktrees sidebars; 3 toggles repo/all worktrees",
    );
    add_text(&mut lines, "0            focus main panel for the selected sidebar");
    add_text(&mut lines, "Tab / Shift-Tab  move focus between panels");
    add_text(&mut lines, "[ / ]        switch repository views or worktree list scope");
    add_text(&mut lines, "h/l, left/right arrows  repos: switch view");
    add_text(
        &mut lines,
        "Enter       repos: open default-branch tmux; worktrees: open agent; main comments: details",
    );
    add_text(&mut lines, "Ctrl-/       open tmux window 3: terminal");
    add_text(&mut lines, "p            repos: pull default branch");
    add_text(&mut lines, "W / Space w w  open the flat Workflow run/edit picker");
    add_text(
        &mut lines,
        "Space w a    create an AI one-off Workflow for the selected worktree",
    );
    add_text(&mut lines, "Space c      open the unified configuration tree");
    add_text(&mut lines, "{ / }        cycle Workflow Runs for the selected worktree");
    add_text(
        &mut lines,
        "u / f        pause or resume the selected Workflow Run / retry its failed Step",
    );
    add_text(
        &mut lines,
        "j/k          move the selection in the focused dashboard or comments panel",
    );
    add_text(
        &mut lines,
        "Space g R    main comments: resolve all inline review conversations",
    );
    add_text(&mut lines, "r            repos: reorder or remove repositories");
    add_text(&mut lines, "C            repos: open a worktree for a remote pull request");
    add_text(&mut lines, "c            repos: create worktree session in selected repo");
    add_text(&mut lines, "> / <        worktrees: raise/lower priority");
    add_text(
        &mut lines,
        "x            cancel selected Workflow Run, otherwise abort selected agent session",
    );
    add_text(
        &mut lines,
        "M            worktrees: migrate selected worktree to the default harness",
    );
    add_text(&mut lines, "o            worktrees: open the selected Worktrunk development URL");
    add_text(&mut lines, "L            worktrees: inspect bounded Worktrunk hook logs");
    add_text(&mut lines, "/            search/filter focused panel");
    add_text(&mut lines, "?            show keybindings; / filters this dialog");
    add_text(&mut lines, "D            archive non-default worktree/session");
    add_text(&mut lines, "U            repos: choose an archived worktree to unarchive");
    add_text(&mut lines, "X            permanently delete non-default worktree/session");
    add_text(&mut lines, "j/k, up/down move selection");
    add_text(&mut lines, "g g / G      top / bottom");
    add_text(&mut lines, "r            refresh outside the repos sidebar");
    add_text(&mut lines, "q, Ctrl-C    quit");
    assert(crate::text::texts(lines@) =~= keybinding_lines());
    lines
}

} // verus!
