//! When actions on branches and change requests are on offer, and what is said of those
//! that are not.
use vstd::prelude::*;

use crate::dialog::ChoiceView;
use crate::frame::Programs;
use crate::git_actions::action_is_on;
use crate::git_actions::GitAction;
use crate::git_actions::GitActionExecution;
use crate::input::DashboardCommand;
use crate::model::PrSummary;
use crate::model::SupportLevel;
use crate::navigation::NavView;
use crate::navigation::PanelFocus;

verus! {

/// Whether the selected worktree can be worked on: it is on a branch of its own.
pub open spec fn is_workable(nav: NavView, index: usize) -> bool {
    let session = nav.sessions[index as int];
    &&& nav.focused_panel == PanelFocus::Worktrees
    &&& nav.selected_context() == Some(index)
    &&& session.branch@ != nav.repos[session.repo_index as int].config.default_branch@
    &&& session.branch@ != "(detached)"@
}

/// Without a selected worktree on a branch of its own, nothing is pushed, opened, merged,
/// repaired or resolved.
pub proof fn law_actions_need_a_branch(
    nav: NavView,
    action: GitAction,
    program_exists: bool,
)
    requires
        action_is_on(nav, action, program_exists),
        action != GitAction::LazyGit,
        action != GitAction::SubmitReview,
    ensures
        nav.selected_context() is Some,
        is_workable(nav, nav.selected_context()->0),
{
}

/// A worktree on a branch of its own can be pushed, whatever its change request.
pub proof fn law_branches_can_be_pushed(nav: NavView, index: usize, program_exists: bool)
    requires
        nav.selected_context() == Some(index),
    ensures
        action_is_on(nav, GitAction::Push, program_exists) <==> is_workable(nav, index),
{
}

/// Which actions on the change request of a worktree are on offer: opening it, where the
/// provider does not rule it out; and, while it is open, merging it, repairing what failed
/// where there is something to repair and an agent to do it, and resolving comments where
/// there are some to resolve.
pub proof fn law_request_actions(
    nav: NavView,
    index: usize,
    summary: PrSummary,
    program_exists: bool,
)
    requires
        is_workable(nav, index),
        nav.sessions[index as int].pr.summary == Some(summary),
    ensures
        ({
            let session = nav.sessions[index as int];
            let config = nav.repos[session.repo_index as int].config;
            let can = summary.capabilities;
            let known = session.pr.details is Some && session.pr.details_trusted;
            let details = session.pr.details->0;
            let open = crate::git_actions::is_open(summary);
            &&& action_is_on(nav, GitAction::OpenPr, program_exists) <==> can.fetch_change_request
                != SupportLevel::Unsupported
            &&& action_is_on(nav, GitAction::Merge, program_exists) <==> open && can.guarded_merge
                != SupportLevel::Unsupported
            &&& action_is_on(nav, GitAction::CiFix, program_exists) <==> open && can.ci_logs
                != SupportLevel::Unsupported && known && details.ci_failures > 0
                && config.headless_agent
            &&& action_is_on(nav, GitAction::ReviewFix, program_exists) <==> open
                && can.review_threads != SupportLevel::Unsupported && known && (details.reviews > 0
                || details.review_comments@.len() > 0) && config.headless_agent
            &&& action_is_on(nav, GitAction::ResolveAllComments, program_exists) <==> open
                && can.resolve_review_thread == SupportLevel::Supported && nav.main_focused
                && known && exists|i: int|
                0 <= i < details.review_comments@.len() && !(
                #[trigger] details.review_comments@[i]).resolved && crate::text::trimmed(
                    details.review_comments@[i].thread_id@,
                ).len() > 0
        }),
{
    let session = nav.sessions[index as int];
    if session.pr.details is Some {
        let details = session.pr.details->0;
        if exists|i: int|
            0 <= i < details.review_comments@.len() && !(
            #[trigger] details.review_comments@[i]).resolved && crate::text::trimmed(
                details.review_comments@[i].thread_id@,
            ).len() > 0 {
            let i = choose|i: int|
                0 <= i < details.review_comments@.len() && !(
                #[trigger] details.review_comments@[i]).resolved && crate::text::trimmed(
                    details.review_comments@[i].thread_id@,
                ).len() > 0;
            assert(crate::git_actions::resolvable(details.review_comments@[i]));
        }
    }
}

/// Without a change request, only pushing is on offer.
pub proof fn law_without_a_request(nav: NavView, index: usize, program_exists: bool)
    requires
        is_workable(nav, index),
        nav.sessions[index as int].pr.summary is None,
    ensures
        action_is_on(nav, GitAction::Push, program_exists),
        !action_is_on(nav, GitAction::OpenPr, program_exists),
        !action_is_on(nav, GitAction::Merge, program_exists),
        !action_is_on(nav, GitAction::CiFix, program_exists),
        !action_is_on(nav, GitAction::ReviewFix, program_exists),
        !action_is_on(nav, GitAction::ResolveAllComments, program_exists),
{
}

/// Lazygit is on offer where it is found, and there is a repository or a worktree to open it
/// in.
pub proof fn law_lazygit(nav: NavView, program_exists: bool)
    ensures
        action_is_on(nav, GitAction::LazyGit, program_exists) <==> program_exists && ((
        nav.focused_panel == PanelFocus::Repos && nav.current_repo < nav.repos.len()) || ((
        nav.focused_panel == PanelFocus::Worktrees || nav.focused_panel == PanelFocus::Merges)
            && nav.selected_context() is Some)),
{
}

/// A review is on offer for an open change request of the current repository in the main
/// panel, where the program for it is found and the change request is on GitHub or of no
/// known provider.
pub proof fn law_submitting_a_review(nav: NavView, program_exists: bool)
    ensures
        action_is_on(nav, GitAction::SubmitReview, program_exists) <==> program_exists
            && nav.focused_panel == PanelFocus::Repos && nav.main_focused && nav.current_repo
            < nav.repos.len() && nav.request_to_review() is Some && crate::git_actions::is_open(
            nav.repos[nav.current_repo as int].pr_summaries@[nav.request_to_review()->0 as int],
        ) && (nav.repos[nav.current_repo as int].pr_summaries@[nav.request_to_review()->0 as int].identity
            is None
            || nav.repos[nav.current_repo as int].pr_summaries@[nav.request_to_review()->0 as int].on_github),
{
}

/// The programs that actions need are the configured ones, or those of their own names.
pub proof fn law_programs_of_actions(nav: NavView, index: usize)
    ensures
        nav.focused_panel == PanelFocus::Repos && nav.current_repo < nav.repos.len() ==> ({
            let tools = nav.repos[nav.current_repo as int].config.tools@;
            crate::git_actions::program_for(nav, GitAction::LazyGit) == Some(
                if tools.dom().contains("lazygit"@) {
                    tools["lazygit"@]@
                } else {
                    "lazygit"@
                },
            )
        }),
        (nav.focused_panel == PanelFocus::Worktrees || nav.focused_panel == PanelFocus::Merges)
            && nav.selected_context() == Some(index) ==> ({
            let tools = nav.repos[nav.sessions[index as int].repo_index as int].config.tools@;
            crate::git_actions::program_for(nav, GitAction::LazyGit) == Some(
                if tools.dom().contains("lazygit"@) {
                    tools["lazygit"@]@
                } else {
                    "lazygit"@
                },
            )
        }),
        nav.current_repo < nav.repos.len() ==> ({
            let tools = nav.repos[nav.current_repo as int].config.tools@;
            crate::git_actions::program_for(nav, GitAction::SubmitReview) == Some(
                if tools.dom().contains("gh"@) {
                    tools["gh"@]@
                } else {
                    "gh"@
                },
            )
        }),
        nav.current_repo >= nav.repos.len() ==> crate::git_actions::program_for(
            nav,
            GitAction::SubmitReview,
        ) is None,
        forall|action: GitAction|
            action != GitAction::LazyGit && action != GitAction::SubmitReview ==> #[trigger]
            crate::git_actions::program_for(nav, action) is None,
{
}

/// An action that is on offer can be chosen; one that is not cannot, and where the provider
/// is the reason, that is said.
pub proof fn law_choices_of_actions(
    nav: NavView,
    action: GitAction,
    program_exists: bool,
    key: Seq<char>,
    label: Seq<char>,
)
    ensures
        ({
            let shown = crate::git_actions::choice_for(nav, action, program_exists, key, label);
            &&& shown.key == key
            &&& shown.disabled == !action_is_on(nav, action, program_exists)
            &&& !shown.disabled ==> shown.label == label
            &&& shown.disabled && crate::git_actions::reason_for(nav, action) is None
                ==> shown.label == label
            &&& shown.disabled && crate::git_actions::reason_for(nav, action) is Some
                ==> shown.label == label + " ("@ + crate::git_actions::reason_for(nav, action)->0
                + ")"@
        }),
{
}

/// What is said of an action that the provider does not support for sure: the provider of
/// the repository counts, and where it is not known, that of the change request.
pub proof fn law_reasons_of_actions(nav: NavView, index: usize, level: SupportLevel)
    requires
        nav.selected_context() == Some(index),
    ensures
        ({
            let session = nav.sessions[index as int];
            let provider = nav.repos[session.repo_index as int].remote_capabilities;
            let can = if provider is Some {
                provider
            } else if session.pr.summary is Some {
                Some(session.pr.summary->0.capabilities)
            } else {
                None
            };
            let said = match level {
                SupportLevel::Supported => None,
                SupportLevel::Conditional => Some("conditional support not established"@),
                SupportLevel::Unknown => Some("support unknown"@),
                SupportLevel::Unsupported => Some("unsupported by provider"@),
            };
            &&& can is Some && can->0.fetch_change_request == level
                ==> crate::git_actions::reason_for(nav, GitAction::OpenPr) == said
            &&& can is Some && can->0.resolve_review_thread == level
                ==> crate::git_actions::reason_for(nav, GitAction::ResolveAllComments) == said
            &&& can is None ==> crate::git_actions::reason_for(nav, GitAction::OpenPr) is None
                && crate::git_actions::reason_for(nav, GitAction::ResolveAllComments) is None
            &&& crate::git_actions::reason_for(nav, GitAction::Push) is None
            &&& crate::git_actions::reason_for(nav, GitAction::Merge) is None
        }),
{
}

/// What is known of the list of change requests of the current repository's provider.
pub proof fn law_support_for_lists(nav: NavView)
    ensures
        nav.current_repo < nav.repos.len()
            && nav.repos[nav.current_repo as int].remote_capabilities is Some
            ==> crate::git_actions::list_support(nav) == Some(
            nav.repos[nav.current_repo as int].remote_capabilities->0.list_change_requests,
        ),
        nav.current_repo >= nav.repos.len()
            || nav.repos[nav.current_repo as int].remote_capabilities is None
            ==> crate::git_actions::list_support(nav) is None,
        crate::git_actions::level_text(SupportLevel::Supported) == "supported"@,
        crate::git_actions::level_text(SupportLevel::Conditional) == "conditional"@,
        crate::git_actions::level_text(SupportLevel::Unknown) == "unknown"@,
        crate::git_actions::level_text(SupportLevel::Unsupported) == "unsupported"@,
{
}

/// The keys after the leader key lead to the actions that the hints name: the same keys in
/// every panel, each with its own words.
pub proof fn law_hints_after_the_leader_key(nav: NavView, programs: Programs)
    ensures
        ({
            let hints = crate::frame::git_hints(nav, programs);
            let root = crate::frame::root_hints(nav.focused_panel);
            match nav.focused_panel {
                PanelFocus::Status => {
                    &&& hints.len() == 1
                    &&& hints[0].key == "g"@
                    &&& hints[0].disabled
                    &&& root.len() == 3
                    &&& root[0].key == "g"@ && root[0].label == "git actions"@
                    &&& root[1].key == "p"@ && root[1].label == "plan actions"@
                    &&& root[2].key == "0"@ && root[2].label == "focus main"@
                },
                PanelFocus::Repos => {
                    &&& hints.len() == 3
                    &&& hints[0].key == "g"@ && hints[0].disabled == !action_is_on(
                        nav,
                        GitAction::LazyGit,
                        programs.lazygit,
                    )
                    &&& hints[1].key == "v"@ && hints[1].disabled == !action_is_on(
                        nav,
                        GitAction::SubmitReview,
                        programs.gh,
                    )
                    &&& hints[2] == (ChoiceView {
                        key: "p"@,
                        label: "pull default branch"@,
                        disabled: false,
                    })
                    &&& root.len() == 5
                    &&& root[0].key == "g"@ && root[0].label == "git actions"@
                    &&& root[1].key == "C"@ && root[1].label == "open remote PR"@
                    &&& root[2].key == "W"@ && root[2].label == "worktree columns"@
                    &&& root[3].key == "0"@ && root[3].label == "focus main"@
                    &&& root[4].key == "space/enter"@ && root[4].label == "open default tmux"@
                },
                _ => {
                    &&& hints.len() == 8
                    &&& hints[0] == (ChoiceView {
                        key: "a"@,
                        label: "auto flow"@,
                        disabled: false,
                    })
                    &&& hints[1].key == "g"@ && hints[1].disabled == !action_is_on(
                        nav,
                        GitAction::LazyGit,
                        programs.lazygit,
                    )
                    &&& hints[2].key == "P"@ && hints[2].disabled == !action_is_on(
                        nav,
                        GitAction::Push,
                        programs.lazygit,
                    )
                    &&& hints[3].key == "o"@ && hints[3].disabled == !action_is_on(
                        nav,
                        GitAction::OpenPr,
                        programs.lazygit,
                    )
                    &&& hints[4].key == "M"@ && hints[4].disabled == !action_is_on(
                        nav,
                        GitAction::Merge,
                        programs.lazygit,
                    )
                    &&& hints[5].key == "c"@ && hints[5].disabled == !action_is_on(
                        nav,
                        GitAction::CiFix,
                        programs.lazygit,
                    )
                    &&& hints[6].key == "f"@ && hints[6].disabled == !action_is_on(
                        nav,
                        GitAction::ReviewFix,
                        programs.lazygit,
                    )
                    &&& hints[7].key == "R"@ && hints[7].disabled == !action_is_on(
                        nav,
                        GitAction::ResolveAllComments,
                        programs.lazygit,
                    )
                    &&& !hints[2].disabled ==> hints[2].label == "push/create PR"@
                    &&& !hints[3].disabled ==> hints[3].label == "open PR"@
                    &&& !hints[4].disabled ==> hints[4].label == "merge"@
                    &&& !hints[5].disabled ==> hints[5].label == "CI repair"@
                    &&& !hints[6].disabled ==> hints[6].label == "review repair"@
                    &&& !hints[7].disabled ==> hints[7].label == "resolve all comments"@
                    &&& root.len() == 5
                    &&& root[0].key == "g"@ && root[0].label == "git actions"@
                    &&& root[1].key == "p"@ && root[1].label == "plan actions"@
                    &&& root[2].key == "0"@ && root[2].label == "focus main"@
                    &&& root[3].key == "enter"@ && root[3].label == "terminal"@
                    &&& root[4].key == "space"@ && root[4].label == "agent if valid"@
                },
            }
        }),
{
}

/// A change request is open where it is not merged and its state says so, in either case.
pub proof fn law_open_change_requests(summary: crate::model::PrSummary)
    ensures
        crate::git_actions::is_open(summary) <==> !summary.merged && crate::text::lower(
            summary.state@,
        ) == "open"@,
{
    reveal_strlit("OPEN");
    reveal_strlit("open");
    assert(crate::text::lower("OPEN"@) =~= "open"@);
}

/// A merge is left to the provider, and the fixes to an agent; each fails under its own
/// title.
pub proof fn law_actions_are_carried_out(action: GitAction, command: DashboardCommand)
    ensures
        crate::git_actions::action_of(command) == Some(GitAction::Merge) <==> command
            == DashboardCommand::Merge,
        crate::git_actions::action_of(command) == Some(GitAction::CiFix) <==> command
            == DashboardCommand::CiFix,
        crate::git_actions::action_of(command) == Some(GitAction::ReviewFix) <==> command
            == DashboardCommand::ReviewFix,
        crate::git_actions::action_of(command) is Some <==> command == DashboardCommand::Merge
            || command == DashboardCommand::CiFix || command == DashboardCommand::ReviewFix,
        crate::git_actions::execution_of(GitAction::Merge) == Some(
            (GitActionExecution::ProviderMerge, "merge failed"@),
        ),
        crate::git_actions::execution_of(GitAction::CiFix) == Some(
            (GitActionExecution::Stabilize, "CI failure prompt failed"@),
        ),
        crate::git_actions::execution_of(GitAction::ReviewFix) == Some(
            (GitActionExecution::Stabilize, "review fix failed"@),
        ),
        crate::git_actions::execution_of(action) is Some <==> action == GitAction::Merge || action
            == GitAction::CiFix || action == GitAction::ReviewFix,
{
}

/// The change requests of a repository can be opened where its provider lists them; where
/// not, the choice is disabled and says why.
pub proof fn law_choice_of_remote_requests(nav: NavView)
    ensures
        ({
            let choice = crate::git_actions::list_choice(nav);
            let support = crate::git_actions::list_support(nav);
            &&& choice.key == "C"@
            &&& choice.disabled <==> support != Some(SupportLevel::Supported)
            &&& support == Some(SupportLevel::Supported) ==> choice.label == "open remote PR"@
            &&& support is None ==> choice.label == "open remote PR (adapter unavailable)"@
            &&& support is Some && support != Some(SupportLevel::Supported) ==> choice.label
                == "open remote PR ("@ + crate::git_actions::level_text(support->0)
                + " support)"@
        }),
{
}

} // verus!
