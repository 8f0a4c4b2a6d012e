use web_gateway::session_choice::{
    action_target, attach_or_create, attach_plan, attach_to_active, attach_to_match,
    attach_with_session_index, AttachPlan, AttachWay,
    client_for, contains_name, create_new_client, find_indexed_session, is_nested_attach,
    name_query, start_plan, ActiveSession, ChoiceError, ClientInfo, NameQuery, SessionNameMatch,
    SessionPick, StartPlan, TargetError,
};

fn names(list: &[&str]) -> Vec<String> {
    list.iter().map(|s| s.to_string()).collect()
}

fn s(text: &str) -> String {
    text.to_string()
}

#[test]
fn client_info_names_its_session() {
    assert_eq!(ClientInfo::Attach(s("a")).get_session_name(), "a");
    assert_eq!(ClientInfo::New(s("b")).get_session_name(), "b");
    assert!(!ClientInfo::Attach(s("a")).takes_layout());
    assert!(ClientInfo::New(s("b")).takes_layout());
}

fn is_two_words_with_a_hyphen(name: &str) -> bool {
    let chars: Vec<char> = name.chars().collect();
    (1..chars.len().saturating_sub(1)).any(|i| chars[i] == '-')
}

#[test]
fn new_client_has_a_generated_name() {
    for _ in 0..200 {
        let client = create_new_client();
        assert!(matches!(client, ClientInfo::New(_)));
        assert!(is_two_words_with_a_hyphen(client.get_session_name()));
    }
    assert!(!is_two_words_with_a_hyphen(""));
    assert!(!is_two_words_with_a_hyphen("-"));
    assert!(!is_two_words_with_a_hyphen("-a"));
    assert!(!is_two_words_with_a_hyphen("a-"));
    assert!(is_two_words_with_a_hyphen("a-b"));
}

#[test]
fn client_for_each_pick() {
    assert_eq!(client_for(SessionPick::Attach(s("a"))), ClientInfo::Attach(s("a")));
    let created = client_for(SessionPick::CreateNew);
    assert!(matches!(created, ClientInfo::New(_)));
    assert!(is_two_words_with_a_hyphen(created.get_session_name()));
}

#[test]
fn indexed_session_within_the_list() {
    let sessions = names(&["one", "two", "three"]);
    assert_eq!(find_indexed_session(&sessions, 0, false), Ok(SessionPick::Attach(s("one"))));
    assert_eq!(find_indexed_session(&sessions, 2, false), Ok(SessionPick::Attach(s("three"))));
    assert_eq!(find_indexed_session(&sessions, 1, true), Ok(SessionPick::Attach(s("two"))));
}

#[test]
fn indexed_session_past_the_list() {
    let sessions = names(&["one", "two", "three"]);
    assert_eq!(find_indexed_session(&sessions, 3, true), Ok(SessionPick::CreateNew));
    assert_eq!(
        find_indexed_session(&sessions, 3, false),
        Err(ChoiceError::NoSessionAtIndex { index: 3 })
    );
    assert_eq!(
        find_indexed_session(&names(&[]), 0, false),
        Err(ChoiceError::NoSessionAtIndex { index: 0 })
    );
}

#[test]
fn session_index_with_no_session_running() {
    assert_eq!(attach_with_session_index(&names(&[]), 0, true), Ok(SessionPick::CreateNew));
    assert_eq!(
        attach_with_session_index(&names(&[]), 0, false),
        Err(ChoiceError::NoActiveSessions)
    );
    assert_eq!(
        attach_with_session_index(&names(&[]), 5, false),
        Err(ChoiceError::NoActiveSessions)
    );
}

#[test]
fn session_index_with_sessions_running() {
    let sessions = names(&["one", "two"]);
    assert_eq!(attach_with_session_index(&sessions, 1, false), Ok(SessionPick::Attach(s("two"))));
    assert_eq!(attach_with_session_index(&sessions, 2, true), Ok(SessionPick::CreateNew));
    assert_eq!(
        attach_with_session_index(&sessions, 2, false),
        Err(ChoiceError::NoSessionAtIndex { index: 2 })
    );
}

#[test]
fn name_query_for_each_case() {
    assert_eq!(name_query(&Some(s("a")), true), NameQuery::Exists);
    assert_eq!(name_query(&Some(s("a")), false), NameQuery::Match);
    assert_eq!(name_query(&None, true), NameQuery::Active);
    assert_eq!(name_query(&None, false), NameQuery::Active);
}

#[test]
fn named_session_is_attached_or_created() {
    assert_eq!(attach_or_create(s("a"), true), ClientInfo::Attach(s("a")));
    assert_eq!(attach_or_create(s("a"), false), ClientInfo::New(s("a")));
}

#[test]
fn name_match_decides_the_attach() {
    assert_eq!(
        attach_to_match("ab", SessionNameMatch::Exact(s("ab"))),
        Ok(ClientInfo::Attach(s("ab")))
    );
    assert_eq!(
        attach_to_match("ab", SessionNameMatch::UniquePrefix(s("abc"))),
        Ok(ClientInfo::Attach(s("abc")))
    );
    assert_eq!(
        attach_to_match("ab", SessionNameMatch::AmbiguousPrefix(names(&["abc", "abd"]))),
        Err(ChoiceError::AmbiguousName { prefix: s("ab"), sessions: names(&["abc", "abd"]) })
    );
    assert_eq!(
        attach_to_match("ab", SessionNameMatch::Nothing),
        Err(ChoiceError::NoSessionNamed { name: s("ab") })
    );
}

#[test]
fn active_session_decides_the_attach() {
    assert_eq!(attach_to_active(ActiveSession::Nothing, true), Ok(SessionPick::CreateNew));
    assert_eq!(attach_to_active(ActiveSession::Nothing, false), Err(ChoiceError::NoActiveSessions));
    assert_eq!(attach_to_active(ActiveSession::One(s("a")), false), Ok(SessionPick::Attach(s("a"))));
    assert_eq!(attach_to_active(ActiveSession::One(s("a")), true), Ok(SessionPick::Attach(s("a"))));
    assert_eq!(attach_to_active(ActiveSession::Many, true), Err(ChoiceError::SessionNotSpecified));
    assert_eq!(attach_to_active(ActiveSession::Many, false), Err(ChoiceError::SessionNotSpecified));
}

#[test]
fn contains_name_finds_whole_names_only() {
    let list = names(&["one", "two"]);
    assert!(contains_name(&list, "one"));
    assert!(contains_name(&list, "two"));
    assert!(!contains_name(&list, "on"));
    assert!(!contains_name(&list, "three"));
    assert!(!contains_name(&names(&[]), "one"));
}

#[test]
fn action_target_with_no_session() {
    assert_eq!(
        action_target(ActiveSession::Nothing, Some(s("a")), &names(&[]), Some(s("e"))),
        Err(TargetError::NoActiveSession)
    );
}

#[test]
fn action_target_with_one_session() {
    assert_eq!(action_target(ActiveSession::One(s("a")), None, &names(&[]), None), Ok(s("a")));
    assert_eq!(
        action_target(ActiveSession::One(s("a")), Some(s("a")), &names(&[]), None),
        Ok(s("a"))
    );
    assert_eq!(
        action_target(ActiveSession::One(s("a")), Some(s("b")), &names(&["a"]), Some(s("a"))),
        Err(TargetError::SessionNotFound { requested: s("b") })
    );
}

#[test]
fn action_target_with_many_sessions() {
    let existing = names(&["a", "b"]);
    assert_eq!(action_target(ActiveSession::Many, Some(s("b")), &existing, None), Ok(s("b")));
    assert_eq!(
        action_target(ActiveSession::Many, Some(s("c")), &existing, Some(s("a"))),
        Err(TargetError::SessionNotFound { requested: s("c") })
    );
    assert_eq!(action_target(ActiveSession::Many, None, &existing, Some(s("e"))), Ok(s("e")));
    assert_eq!(
        action_target(ActiveSession::Many, None, &existing, None),
        Err(TargetError::SessionNotSpecified)
    );
}

#[test]
fn nested_attach_is_recognised() {
    assert!(is_nested_attach(Some("a"), &ClientInfo::Attach(s("a"))));
    assert!(is_nested_attach(Some("a"), &ClientInfo::New(s("a"))));
    assert!(!is_nested_attach(Some("a"), &ClientInfo::Attach(s("b"))));
    assert!(!is_nested_attach(None, &ClientInfo::Attach(s("a"))));
}

#[test]
fn attach_plan_goes_by_index_where_one_is_given() {
    assert_eq!(
        attach_plan(Some(3), false),
        AttachPlan { way: AttachWay::ByIndex(3), install_assets: false }
    );
    assert_eq!(
        attach_plan(Some(0), true),
        AttachPlan { way: AttachWay::ByIndex(0), install_assets: true }
    );
    assert_eq!(attach_plan(None, true), AttachPlan { way: AttachWay::ByName, install_assets: true });
    assert_eq!(
        attach_plan(None, false),
        AttachPlan { way: AttachWay::ByName, install_assets: false }
    );
}

#[test]
fn start_plan_prefers_the_command_line() {
    assert_eq!(start_plan(Some(s("f")), Some(s("c")), Some(true)), StartPlan::Named(s("f")));
    assert_eq!(start_plan(Some(s("f")), None, None), StartPlan::Named(s("f")));
    assert_eq!(start_plan(None, Some(s("c")), Some(true)), StartPlan::AttachOrCreate(s("c")));
    assert_eq!(start_plan(None, Some(s("c")), Some(false)), StartPlan::NamedByConfig(s("c")));
    assert_eq!(start_plan(None, Some(s("c")), None), StartPlan::NamedByConfig(s("c")));
    assert_eq!(start_plan(None, None, Some(true)), StartPlan::Generated);
    assert_eq!(start_plan(None, None, None), StartPlan::Generated);
}
