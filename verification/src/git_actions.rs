//! Which actions on branches and change requests are on offer.
use vstd::prelude::*;

use crate::dialog::ChoiceView;
use crate::dialog::KeyChoice;
use crate::input::DashboardCommand;
use crate::model::Capabilities;
use crate::model::Config;
use crate::model::PrCache;
use crate::model::PrSummary;
use crate::model::Session;
use crate::model::SupportLevel;
use crate::navigation::NavView;
use crate::navigation::Navigation;
use crate::navigation::PanelFocus;
use crate::text::join2;
use crate::text::join3;
use crate::text::owned;
use crate::text::same;
use crate::text::same_ignoring_case;
use crate::text::trim;

verus! {

/// An action on a branch or a change request.
#[derive(Clone, Copy, Debug, PartialEq, Eq, Structural)]
pub enum GitAction {
    LazyGit,
    OpenPr,
    SubmitReview,
    Push,
    Merge,
    CiFix,
    ReviewFix,
    ResolveAllComments,
}

/// How an action on a change request is carried out.
#[derive(Clone, Copy, Debug, PartialEq, Eq, Structural)]
pub enum GitActionExecution {
    ProviderMerge,
    Stabilize,
}

/// The action on a change request as a whole that a command asks for.
pub open spec fn action_of(command: DashboardCommand) -> Option<GitAction> {
    match command {
        DashboardCommand::Merge => Some(GitAction::Merge),
        DashboardCommand::CiFix => Some(GitAction::CiFix),
        DashboardCommand::ReviewFix => Some(GitAction::ReviewFix),
        _ => None,
    }
}

/// The action that a command asks for, where it is one that is carried out on a change
/// request as a whole.
pub fn git_action_for_command(command: DashboardCommand) -> (r: Option<GitAction>)
    ensures
        r == action_of(command),
        r == (match command {
            DashboardCommand::Merge => Some(GitAction::Merge),
            DashboardCommand::CiFix => Some(GitAction::CiFix),
            DashboardCommand::ReviewFix => Some(GitAction::ReviewFix),
            _ => None,
        }),
{
    match command {
        DashboardCommand::Merge => Some(GitAction::Merge),
        DashboardCommand::CiFix => Some(GitAction::CiFix),
        DashboardCommand::ReviewFix => Some(GitAction::ReviewFix),
        _ => None,
    }
}

/// How an action on a change request is carried out, and the title of its failure.
pub open spec fn execution_of(action: GitAction) -> Option<(GitActionExecution, Seq<char>)> {
    match action {
        GitAction::Merge => Some((GitActionExecution::ProviderMerge, "merge failed"@)),
        GitAction::CiFix => Some((GitActionExecution::Stabilize, "CI failure prompt failed"@)),
        GitAction::ReviewFix => Some((GitActionExecution::Stabilize, "review fix failed"@)),
        _ => None,
    }
}

/// How an action on a change request is carried out, and what its failure is reported
/// under.
pub fn git_action_execution(action: GitAction) -> (r: Option<(GitActionExecution, &'static str)>)
    ensures
        (match r {
            Some((execution, title)) => Some((execution, title@)),
            None => None,
        }) == execution_of(action),
        match action {
            GitAction::Merge => r matches Some((execution, title)) && execution
                == GitActionExecution::ProviderMerge && title@ == "merge failed"@,
            GitAction::CiFix => r matches Some((execution, title)) && execution
                == GitActionExecution::Stabilize && title@ == "CI failure prompt failed"@,
            GitAction::ReviewFix => r matches Some((execution, title)) && execution
                == GitActionExecution::Stabilize && title@ == "review fix failed"@,
            _ => r is None,
        },
{
    match action {
        GitAction::Merge => Some((GitActionExecution::ProviderMerge, "merge failed")),
        GitAction::CiFix => Some((GitActionExecution::Stabilize, "CI failure prompt failed")),
        GitAction::ReviewFix => Some((GitActionExecution::Stabilize, "review fix failed")),
        _ => None,
    }
}

/// The branch name of a worktree that is on no branch.
pub open spec fn detached() -> Seq<char> {
    "(detached)"@
}

/// Whether a branch is one that work is done on: neither the default branch nor none.
pub open spec fn is_task(config: Config, branch: Seq<char>) -> bool {
    branch != config.default_branch@ && branch != detached()
}

/// The details of a change request, where they are as fresh as its summary.
pub open spec fn trusted(pr: PrCache) -> bool {
    pr.details is Some && pr.details_trusted
}

/// Whether a review comment can be resolved: it is not, and its thread is known.
pub open spec fn resolvable(comment: crate::model::ReviewComment) -> bool {
    !comment.resolved && crate::text::trimmed(comment.thread_id@).len() > 0
}

/// Whether a change request has a review comment that can be resolved.
pub open spec fn has_resolvable(pr: PrCache) -> bool {
    trusted(pr) && exists|i: int|
        0 <= i < pr.details->0.review_comments@.len() && resolvable(
            #[trigger] pr.details->0.review_comments@[i],
        )
}

/// Whether there is something for a repair to work on.
pub open spec fn has_input(pr: PrCache, action: GitAction) -> bool {
    trusted(pr) && (if action is CiFix {
        pr.details->0.ci_failures > 0
    } else {
        pr.details->0.reviews > 0 || pr.details->0.review_comments@.len() > 0
    })
}

/// Whether a change request is open.
pub open spec fn is_open(summary: PrSummary) -> bool {
    !summary.merged && crate::text::lower(summary.state@) == crate::text::lower("OPEN"@)
}

/// The program that an action needs, where it needs one and the panels name it.
pub open spec fn program_for(nav: NavView, action: GitAction) -> Option<Seq<char>> {
    match action {
        GitAction::LazyGit => if nav.focused_panel is Status {
            None
        } else if nav.focused_panel is Repos {
            if nav.current_repo < nav.repos.len() {
                Some(nav.repos[nav.current_repo as int].config.tool_text("lazygit"@))
            } else {
                None
            }
        } else {
            match nav.selected_context() {
                Some(index) => Some(
                    nav.repos[nav.sessions[index as int].repo_index as int].config.tool_text(
                        "lazygit"@,
                    ),
                ),
                None => None,
            }
        },
        GitAction::SubmitReview => if nav.current_repo < nav.repos.len() {
            Some(nav.repos[nav.current_repo as int].config.tool_text("gh"@))
        } else {
            None
        },
        _ => None,
    }
}

/// Whether there is an open change request to review, and it belongs to GitHub or no provider
/// is named.
pub open spec fn review_is_possible(nav: NavView) -> bool {
    match nav.request_to_review() {
        Some(at) => {
            let summary = nav.repos[nav.current_repo as int].pr_summaries@[at as int];
            is_open(summary) && (summary.identity is None || summary.on_github)
        },
        None => false,
    }
}

/// Whether an action on the change request of a worktree is on offer.
pub open spec fn request_action_is_on(
    nav: NavView,
    config: Config,
    session: Session,
    action: GitAction,
) -> bool {
    if !is_task(config, session.branch@) {
        false
    } else if action is Push {
        true
    } else {
        match session.pr.summary {
            None => false,
            Some(summary) => {
                let capabilities = summary.capabilities;
                match action {
                    GitAction::OpenPr => !(capabilities.fetch_change_request is Unsupported),
                    GitAction::ResolveAllComments => is_open(summary)
                        && capabilities.resolve_review_thread is Supported && nav.main_focused
                        && has_resolvable(session.pr),
                    GitAction::CiFix => is_open(summary) && !(capabilities.ci_logs is Unsupported)
                        && has_input(session.pr, action) && config.headless_agent,
                    GitAction::ReviewFix => is_open(summary) && !(
                    capabilities.review_threads is Unsupported) && has_input(session.pr, action)
                        && config.headless_agent,
                    GitAction::Merge => is_open(summary) && !(
                    capabilities.guarded_merge is Unsupported),
                    _ => is_open(summary),
                }
            },
        }
    }
}

/// Whether an action is on offer. An action that needs a program is on offer only where
/// the program exists.
pub open spec fn action_is_on(nav: NavView, action: GitAction, program_exists: bool) -> bool {
    match action {
        GitAction::LazyGit => program_for(nav, action) is Some && program_exists,
        GitAction::SubmitReview => program_for(nav, action) is Some && program_exists
            && nav.focused_panel is Repos && nav.main_focused && review_is_possible(nav),
        _ => nav.focused_panel is Worktrees && match nav.selected_context() {
            Some(index) => {
                let session = nav.sessions[index as int];
                request_action_is_on(
                    nav,
                    nav.repos[session.repo_index as int].config,
                    session,
                    action,
                )
            },
            None => false,
        },
    }
}

/// The program that an action needs, where it needs one and the panels name it.
pub fn git_action_program(navigation: &Navigation, action: GitAction) -> (r: Option<String>)
    ensures
        crate::text::opt_text(r) == program_for(navigation@, action),
{
    match action {
        GitAction::LazyGit => {
            if navigation.focused_panel == PanelFocus::Status {
                None
            } else if navigation.focused_panel == PanelFocus::Repos {
                if navigation.current_repo < navigation.repos.len() {
                    Some(navigation.repos[navigation.current_repo].config.tool("lazygit"))
                } else {
                    None
                }
            } else {
                match navigation.selected_worktree_context() {
                    Some(index) => {
                        let at: usize = navigation.sessions[index].repo_index;
                        Some(navigation.repos[at].config.tool("lazygit"))
                    },
                    None => None,
                }
            }
        },
        GitAction::SubmitReview => {
            if navigation.current_repo < navigation.repos.len() {
                Some(navigation.repos[navigation.current_repo].config.tool("gh"))
            } else {
                None
            }
        },
        _ => None,
    }
}

fn is_task_branch(config: &Config, branch: &str) -> (r: bool)
    ensures
        r == is_task(*config, branch@),
{
    !config.is_default_branch(branch) && !same(branch, "(detached)")
}

pub(crate) fn request_is_open(summary: &PrSummary) -> (r: bool)
    ensures
        r == is_open(*summary),
{
    !summary.merged && same_ignoring_case(summary.state.as_str(), "OPEN")
}

fn comment_is_resolvable(pr: &PrCache) -> (r: bool)
    ensures
        r == has_resolvable(*pr),
{
    if !pr.details_trusted {
        return false;
    }
    match &pr.details {
        Some(details) => {
            let mut i: usize = 0;
            while i < details.review_comments.len()
                invariant
                    i <= details.review_comments.len(),
                    pr.details == Some(*details),
                    pr.details_trusted,
                    forall|k: int|
                        0 <= k < i ==> !resolvable(#[trigger] details.review_comments@[k]),
                decreases details.review_comments.len() - i,
            {
                let thread: String = trim(details.review_comments[i].thread_id.as_str());
                if !details.review_comments[i].resolved && thread.as_str().unicode_len() > 0 {
                    assert(resolvable(pr.details->0.review_comments@[i as int]));
                    return true;
                }
                i += 1;
            }
            false
        },
        None => false,
    }
}

fn repair_has_input(pr: &PrCache, action: GitAction) -> (r: bool)
    ensures
        r == has_input(*pr, action),
{
    if !pr.details_trusted {
        return false;
    }
    match &pr.details {
        Some(details) => if action == GitAction::CiFix {
            details.ci_failures > 0
        } else {
            details.reviews > 0 || details.review_comments.len() > 0
        },
        None => false,
    }
}

fn request_action_enabled(
    navigation: &Navigation,
    config: &Config,
    session: &Session,
    action: GitAction,
) -> (r: bool)
    ensures
        r == request_action_is_on(navigation@, *config, *session, action),
{
    if !is_task_branch(config, session.branch.as_str()) {
        return false;
    }
    if action == GitAction::Push {
        return true;
    }
    let summary: &PrSummary = match &session.pr.summary {
        Some(summary) => summary,
        None => {
            return false;
        },
    };
    let capabilities: Capabilities = summary.capabilities;
    match action {
        GitAction::OpenPr => capabilities.fetch_change_request != SupportLevel::Unsupported,
        GitAction::ResolveAllComments => request_is_open(summary)
            && capabilities.resolve_review_thread == SupportLevel::Supported
            && navigation.main_focused && comment_is_resolvable(&session.pr),
        GitAction::CiFix => request_is_open(summary) && capabilities.ci_logs
            != SupportLevel::Unsupported && repair_has_input(&session.pr, action)
            && config.headless_agent,
        GitAction::ReviewFix => request_is_open(summary) && capabilities.review_threads
            != SupportLevel::Unsupported && repair_has_input(&session.pr, action)
            && config.headless_agent,
        GitAction::Merge => request_is_open(summary) && capabilities.guarded_merge
            != SupportLevel::Unsupported,
        _ => request_is_open(summary),
    }
}

/// Whether an action is on offer; `program_exists` says whether the program that
/// `git_action_program` names is there.
pub fn git_action_enabled(
    navigation: &Navigation,
    action: GitAction,
    program_exists: bool,
) -> (r: bool)
    ensures
        r == action_is_on(navigation@, action, program_exists),
{
    match action {
        GitAction::LazyGit => git_action_program(navigation, action).is_some() && program_exists,
        GitAction::SubmitReview => {
            if !program_exists || git_action_program(navigation, action).is_none() {
                return false;
            }
            if navigation.focused_panel != PanelFocus::Repos || !navigation.main_focused {
                return false;
            }
            match navigation.request_for_review() {
                Some(at) => {
                    let summary: &PrSummary =
                        &navigation.repos[navigation.current_repo].pr_summaries[at];
                    summary.identity.is_none() || summary.on_github
                },
                None => false,
            }
        },
        _ => {
            if navigation.focused_panel != PanelFocus::Worktrees {
                return false;
            }
            match navigation.selected_worktree_context() {
                Some(index) => {
                    let session: &Session = &navigation.sessions[index];
                    request_action_enabled(
                        navigation,
                        &navigation.repos[session.repo_index].config,
                        session,
                        action,
                    )
                },
                None => false,
            }
        },
    }
}

/// What the provider supports of an action on the selected worktree's change request:
/// what is known of the repository's provider, else what the summary says.
pub open spec fn support_for(nav: NavView, action: GitAction, summary: Option<PrSummary>) -> Option<
    SupportLevel,
> {
    let known = match nav.selected_context() {
        Some(index) => {
            nav.repos[nav.sessions[index as int].repo_index as int].remote_capabilities
        },
        None => None,
    };
    let capabilities = match known {
        Some(capabilities) => Some(capabilities),
        None => match summary {
            Some(summary) => Some(summary.capabilities),
            None => None,
        },
    };
    match capabilities {
        Some(capabilities) => match action {
            GitAction::OpenPr => Some(capabilities.fetch_change_request),
            GitAction::ResolveAllComments => Some(capabilities.resolve_review_thread),
            _ => None,
        },
        None => None,
    }
}

/// What the provider supports of an action on the selected worktree's change request.
pub fn remote_support_for_action(
    navigation: &Navigation,
    action: GitAction,
    summary: Option<&PrSummary>,
) -> (r: Option<SupportLevel>)
    ensures
        r == support_for(
            navigation@,
            action,
            match summary {
                Some(summary) => Some(*summary),
                None => None,
            },
        ),
{
    let known: Option<Capabilities> = match navigation.selected_worktree_context() {
        Some(index) => {
            let at: usize = navigation.sessions[index].repo_index;
            navigation.repos[at].remote_capabilities
        },
        None => None,
    };
    let capabilities: Capabilities = match known {
        Some(capabilities) => capabilities,
        None => match summary {
            Some(summary) => summary.capabilities,
            None => {
                return None;
            },
        },
    };
    match action {
        GitAction::OpenPr => Some(capabilities.fetch_change_request),
        GitAction::ResolveAllComments => Some(capabilities.resolve_review_thread),
        _ => None,
    }
}

/// The summary of the selected worktree's change request.
pub open spec fn selected_summary(nav: NavView) -> Option<PrSummary> {
    match nav.selected_context() {
        Some(index) => nav.sessions[index as int].pr.summary,
        None => None,
    }
}

/// Why an action is not on offer, as far as the provider is the reason.
pub open spec fn reason_for(nav: NavView, action: GitAction) -> Option<Seq<char>> {
    match support_for(nav, action, selected_summary(nav)) {
        Some(SupportLevel::Conditional) => Some("conditional support not established"@),
        Some(SupportLevel::Unknown) => Some("support unknown"@),
        Some(SupportLevel::Unsupported) => Some("unsupported by provider"@),
        Some(SupportLevel::Supported) => None,
        None => None,
    }
}

/// Why an action is not on offer, as far as the provider is the reason.
pub fn remote_action_reason(navigation: &Navigation, action: GitAction) -> (r: Option<String>)
    ensures
        crate::text::opt_text(r) == reason_for(navigation@, action),
{
    let support: Option<SupportLevel> = match navigation.selected_worktree_context() {
        Some(index) => match &navigation.sessions[index].pr.summary {
            Some(summary) => remote_support_for_action(navigation, action, Some(summary)),
            None => remote_support_for_action(navigation, action, None),
        },
        None => remote_support_for_action(navigation, action, None),
    };
    match support {
        Some(SupportLevel::Conditional) => Some(owned("conditional support not established")),
        Some(SupportLevel::Unknown) => Some(owned("support unknown")),
        Some(SupportLevel::Unsupported) => Some(owned("unsupported by provider")),
        Some(SupportLevel::Supported) => None,
        None => None,
    }
}

/// The line of a list of choices for an action: one that is not on offer is disabled, and
/// says why where the provider is the reason.
pub open spec fn choice_for(
    nav: NavView,
    action: GitAction,
    program_exists: bool,
    key: Seq<char>,
    label: Seq<char>,
) -> ChoiceView {
    if action_is_on(nav, action, program_exists) {
        ChoiceView { key, label, disabled: false }
    } else {
        match reason_for(nav, action) {
            Some(reason) => ChoiceView {
                key,
                label: label + " ("@ + reason + ")"@,
                disabled: true,
            },
            None => ChoiceView { key, label, disabled: true },
        }
    }
}

/// The line of a list of choices for an action.
pub fn git_choice(
    navigation: &Navigation,
    action: GitAction,
    program_exists: bool,
    key: &str,
    label: &str,
) -> (r: KeyChoice)
    ensures
        r@ == choice_for(navigation@, action, program_exists, key@, label@),
{
    if git_action_enabled(navigation, action, program_exists) {
        return KeyChoice::new(key, label);
    }
    match remote_action_reason(navigation, action) {
        Some(reason) => {
            let head: String = join3(label, " (", reason.as_str());
            let text: String = join2(head.as_str(), ")");
            KeyChoice::disabled(key, text.as_str())
        },
        None => KeyChoice::disabled(key, label),
    }
}

/// What the provider of the current repository supports of listing change requests.
pub open spec fn list_support(nav: NavView) -> Option<SupportLevel> {
    if nav.current_repo < nav.repos.len() {
        match nav.repos[nav.current_repo as int].remote_capabilities {
            Some(capabilities) => Some(capabilities.list_change_requests),
            None => None,
        }
    } else {
        None
    }
}

/// What the provider of the current repository supports of listing change requests.
pub fn selected_repo_list_support(navigation: &Navigation) -> (r: Option<SupportLevel>)
    ensures
        r == list_support(navigation@),
{
    if navigation.current_repo >= navigation.repos.len() {
        return None;
    }
    match navigation.repos[navigation.current_repo].remote_capabilities {
        Some(capabilities) => Some(capabilities.list_change_requests),
        None => None,
    }
}

/// The name of a level of support.
pub open spec fn level_text(level: SupportLevel) -> Seq<char> {
    match level {
        SupportLevel::Supported => "supported"@,
        SupportLevel::Conditional => "conditional"@,
        SupportLevel::Unknown => "unknown"@,
        SupportLevel::Unsupported => "unsupported"@,
    }
}

fn level_label(level: SupportLevel) -> (r: &'static str)
    ensures
        r@ == level_text(level),
{
    match level {
        SupportLevel::Supported => "supported",
        SupportLevel::Conditional => "conditional",
        SupportLevel::Unknown => "unknown",
        SupportLevel::Unsupported => "unsupported",
    }
}

/// What is offered for the change requests of the selected repository.
pub open spec fn list_choice(nav: NavView) -> ChoiceView {
    let support = list_support(nav);
    ChoiceView {
        key: "C"@,
        label: match support {
            Some(SupportLevel::Supported) => "open remote PR"@,
            Some(level) => "open remote PR ("@ + level_text(level) + " support)"@,
            None => "open remote PR (adapter unavailable)"@,
        },
        disabled: support != Some(SupportLevel::Supported),
    }
}

/// The line of a list of choices for opening a change request of the provider.
pub fn remote_pr_list_choice(navigation: &Navigation) -> (r: KeyChoice)
    ensures
        r@ == list_choice(navigation@),
        r@ == (match list_support(navigation@) {
            Some(SupportLevel::Supported) => ChoiceView {
                key: "C"@,
                label: "open remote PR"@,
                disabled: false,
            },
            Some(level) => ChoiceView {
                key: "C"@,
                label: "open remote PR ("@ + level_text(level) + " support)"@,
                disabled: true,
            },
            None => ChoiceView {
                key: "C"@,
                label: "open remote PR (adapter unavailable)"@,
                disabled: true,
            },
        }),
{
    match selected_repo_list_support(navigation) {
        Some(SupportLevel::Supported) => KeyChoice::new("C", "open remote PR"),
        Some(level) => {
            let text: String = join3("open remote PR (", level_label(level), " support)");
            KeyChoice::disabled("C", text.as_str())
        },
        None => KeyChoice::disabled("C", "open remote PR (adapter unavailable)"),
    }
}

/// No action on a change request is on offer before one is known; once it is closed or
/// merged, only looking at it is.
pub proof fn law_change_request_actions_need_a_request(
    nav: NavView,
    action: GitAction,
    program_exists: bool,
    index: usize,
)
    requires
        nav.selected_context() == Some(index),
        !(action is LazyGit),
        !(action is SubmitReview),
        !(action is Push),
        action_is_on(nav, action, program_exists),
    ensures
        nav.sessions[index as int].pr.summary is Some,
        !(action is OpenPr) ==> is_open(nav.sessions[index as int].pr.summary->0),
{
}

/// Nothing that changes a branch or a change request is on offer on the default branch.
pub proof fn law_default_branch_is_left_alone(
    nav: NavView,
    action: GitAction,
    program_exists: bool,
    index: usize,
)
    requires
        nav.selected_context() == Some(index),
        nav.sessions[index as int].branch@
            == nav.repos[nav.sessions[index as int].repo_index as int].config.default_branch@,
        !(action is LazyGit),
        !(action is SubmitReview),
    ensures
        !action_is_on(nav, action, program_exists),
{
}

} // verus!
