use git_helper::models::{
    GitAuthType, GitPlatform, ModelError, TaskDefinitionStatus, TaskStatus, TaskType, UserRole,
};

#[test]
fn task_type_names_round_trip() {
    for t in [TaskType::GitReview, TaskType::TestGen, TaskType::Custom] {
        assert_eq!(TaskType::from_db(t.as_str()), Ok(t));
        assert_eq!(TaskType::from_cli(t.as_str()), Ok(t));
    }
    assert_eq!(TaskType::GitReview.as_str(), "git_review");
}

#[test]
fn status_names_round_trip() {
    for s in [
        TaskStatus::Pending,
        TaskStatus::Running,
        TaskStatus::Done,
        TaskStatus::Failed,
        TaskStatus::Cancelled,
    ] {
        assert_eq!(TaskStatus::from_db(s.as_str()), Ok(s));
    }
    for s in [TaskDefinitionStatus::Active, TaskDefinitionStatus::Paused] {
        assert_eq!(TaskDefinitionStatus::from_db(s.as_str()), Ok(s));
    }
}

#[test]
fn platform_and_auth_names_round_trip() {
    for p in [GitPlatform::Github, GitPlatform::Gitee, GitPlatform::Gitlab, GitPlatform::Other] {
        assert_eq!(GitPlatform::from_db(p.as_str()), Ok(p));
    }
    for a in [GitAuthType::Token, GitAuthType::Ssh, GitAuthType::Basic] {
        assert_eq!(GitAuthType::from_db(a.as_str()), Ok(a));
    }
    assert_eq!(UserRole::SuperAdmin.as_str(), "superAdmin");
    assert_eq!(UserRole::User.as_str(), "user");
}

#[test]
fn unknown_names_are_refused_with_the_text() {
    let e = TaskType::from_cli("nightly").unwrap_err();
    assert_eq!(e, ModelError::UnsupportedTaskType("nightly".to_string()));
    assert_eq!(e.message(), "unsupported task type: nightly");
    let e = GitPlatform::from_db("bitbucket").unwrap_err();
    assert_eq!(e.message(), "unsupported git platform: bitbucket");
    assert!(TaskStatus::from_db("Pending").is_err());
}
