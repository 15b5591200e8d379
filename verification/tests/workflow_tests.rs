use pr_bot::workflows::{
    keeps_task_boundaries, HEALTH_CHECK_WORKFLOW, MENTION_WORKFLOW, NEW_ISSUE_WORKFLOW,
    PR_FEEDBACK_WORKFLOW,
};

const WORKFLOWS: &[(&str, &str)] = &[
    ("new-issue", NEW_ISSUE_WORKFLOW),
    ("mention", MENTION_WORKFLOW),
    ("pr-feedback", PR_FEEDBACK_WORKFLOW),
    ("health-check", HEALTH_CHECK_WORKFLOW),
];

#[test]
fn bundled_workflows_preserve_task_and_fork_boundaries() {
    for (name, workflow) in WORKFLOWS {
        assert!(
            workflow.contains("current task directory"),
            "{name} does not require task-directory isolation"
        );
        assert!(
            workflow.contains("git push fork"),
            "{name} does not preserve the fork-only push path"
        );
        for forbidden in ["~/.cache/", "worktree add", "git -C <base>"] {
            assert!(
                !workflow.contains(forbidden),
                "{name} contains forbidden shared-workspace pattern {forbidden:?}"
            );
        }
        assert!(keeps_task_boundaries(workflow), "{name} crosses a boundary");
    }
}

#[test]
fn boundary_check_rejects_shared_workspaces() {
    assert!(keeps_task_boundaries("stay in the current task directory; git push fork main"));
    assert!(!keeps_task_boundaries("current task directory; git push fork; git worktree add x"));
    assert!(!keeps_task_boundaries("current task directory; git push origin"));
    assert!(!keeps_task_boundaries("git push fork; cd ~/.cache/pr-bot"));
}
