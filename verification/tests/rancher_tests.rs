use rsh::rancher::ApiKeyRequest;
use rsh::rancher::AuthDecision;
use rsh::rancher::AuthFlow;
use rsh::rancher::ContainerExec;
use rsh::rancher::ContainerResolver;
use rsh::rancher::Entry;
use rsh::rancher::Error;
use rsh::rancher::HostAccess;
use rsh::rancher::Page;
use rsh::rancher::Phase;
use rsh::rancher::ResolveStep;
use rsh::rancher::TokenRequest;
use rsh::rancher::api_key_url;
use rsh::rancher::index_url;
use rsh::rancher::status_outcome;
use rsh::rancher::token_url;

fn entry(name: &str, links: &[(&str, &str)], actions: &[(&str, &str)]) -> Entry {
    Entry {
        name: name.to_string(),
        links: links.iter().map(|(k, v)| (k.to_string(), v.to_string())).collect(),
        actions: actions.iter().map(|(k, v)| (k.to_string(), v.to_string())).collect(),
    }
}

fn fetch_url(step: ResolveStep) -> String {
    match step {
        ResolveStep::Fetch(u) => u,
        _ => panic!("expected a fetch"),
    }
}

fn resolver(env: Option<&str>) -> ContainerResolver {
    ContainerResolver::new(
        env.map(|e| e.to_string()),
        "app".to_string(),
        "web".to_string(),
        "execute".to_string(),
    )
}

#[test]
fn index_follows_projects_link_with_all_pages() {
    let mut r = resolver(Some("prod"));
    let links = vec![("projects".to_string(), "https://h/v2-beta/projects".to_string())];
    let u = fetch_url(r.on_index(links));
    assert_eq!(u, "https://h/v2-beta/projects?all=true");
    assert_eq!(r.phase, Phase::Projects);
}

#[test]
fn index_without_projects_link_is_structural_failure() {
    let mut r = resolver(Some("prod"));
    let step = r.on_index(vec![("schemas".to_string(), "https://h/s".to_string())]);
    assert!(matches!(step, ResolveStep::Fail(Error::Empty)));
    assert_eq!(r.phase, Phase::Finished);
}

#[test]
fn match_on_second_page_fetches_exactly_two_pages_in_order() {
    let mut r = resolver(Some("prod"));
    let u1 = fetch_url(r.on_index(vec![("projects".to_string(), "https://h/p".to_string())]));
    assert_eq!(u1, "https://h/p?all=true");
    // Page one holds no match but links to page two.
    let page1 = Page {
        data: vec![entry("staging", &[("stacks", "https://h/staging/stacks")], &[])],
        next: Some("https://h/p?page=2".to_string()),
    };
    let u2 = fetch_url(r.on_page(page1));
    assert_eq!(u2, "https://h/p?page=2");
    assert_eq!(r.phase, Phase::Projects);
    // Page two holds the match: resolution follows its stacks link and no
    // further project page is fetched.
    let page2 = Page {
        data: vec![entry("prod", &[("stacks", "https://h/prod/stacks")], &[])],
        next: None,
    };
    let u3 = fetch_url(r.on_page(page2));
    assert_eq!(u3, "https://h/prod/stacks");
    assert_eq!(r.phase, Phase::Stacks);
}

#[test]
fn exhausted_projects_fail_empty() {
    let mut r = resolver(Some("prod"));
    fetch_url(r.on_index(vec![("projects".to_string(), "https://h/p".to_string())]));
    let page = Page { data: vec![entry("staging", &[], &[])], next: None };
    let step = r.on_page(page);
    assert!(matches!(step, ResolveStep::Fail(Error::Empty)));
}

#[test]
fn sole_project_is_auto_selected_without_a_name_check() {
    let mut r = resolver(None);
    fetch_url(r.on_index(vec![("projects".to_string(), "https://h/p".to_string())]));
    let page = Page {
        data: vec![entry("whatever", &[("stacks", "https://h/w/stacks")], &[])],
        next: None,
    };
    let u = fetch_url(r.on_page(page));
    assert_eq!(u, "https://h/w/stacks");
    assert_eq!(r.phase, Phase::Stacks);
}

#[test]
fn zero_projects_without_a_name_cannot_determine_environment() {
    let mut r = resolver(None);
    fetch_url(r.on_index(vec![("projects".to_string(), "https://h/p".to_string())]));
    let page = Page { data: vec![], next: None };
    let step = r.on_page(page);
    assert!(matches!(step, ResolveStep::Fail(Error::CouldNotDetermineEnvironment)));
}

#[test]
fn two_projects_without_a_name_cannot_determine_environment() {
    let mut r = resolver(None);
    fetch_url(r.on_index(vec![("projects".to_string(), "https://h/p".to_string())]));
    // The two candidates arrive across two pages: both are collected.
    let page1 = Page {
        data: vec![entry("a", &[], &[])],
        next: Some("https://h/p2".to_string()),
    };
    let u = fetch_url(r.on_page(page1));
    assert_eq!(u, "https://h/p2");
    let page2 = Page { data: vec![entry("b", &[], &[])], next: None };
    let step = r.on_page(page2);
    assert!(matches!(step, ResolveStep::Fail(Error::CouldNotDetermineEnvironment)));
}

#[test]
fn full_walk_collects_only_containers_with_the_action() {
    let mut r = resolver(Some("prod"));
    fetch_url(r.on_index(vec![("projects".to_string(), "https://h/p".to_string())]));
    fetch_url(r.on_page(Page {
        data: vec![entry("prod", &[("stacks", "https://h/stacks")], &[])],
        next: None,
    }));
    let u = fetch_url(r.on_page(Page {
        data: vec![
            entry("other", &[("services", "https://h/other/services")], &[]),
            entry("app", &[("services", "https://h/app/services")], &[]),
        ],
        next: None,
    }));
    assert_eq!(u, "https://h/app/services");
    let u = fetch_url(r.on_page(Page {
        data: vec![entry("web", &[("instances", "https://h/instances")], &[])],
        next: None,
    }));
    assert_eq!(u, "https://h/instances");
    let step = r.on_page(Page {
        data: vec![
            entry("web-1", &[], &[("execute", "https://h/c1/exec")]),
            entry("web-2", &[], &[("logs", "https://h/c2/logs")]),
            entry("web-3", &[], &[("execute", "https://h/c3/exec")]),
        ],
        next: None,
    });
    match step {
        ResolveStep::Done(containers) => {
            let names: Vec<&str> = containers.iter().map(|c| c.name.as_str()).collect();
            assert_eq!(names, vec!["web-1", "web-3"]);
        }
        _ => panic!("expected resolution to finish"),
    }
    assert_eq!(r.phase, Phase::Finished);
}

#[test]
fn missing_child_link_is_structural_failure() {
    let mut r = resolver(Some("prod"));
    fetch_url(r.on_index(vec![("projects".to_string(), "https://h/p".to_string())]));
    let step = r.on_page(Page {
        data: vec![entry("prod", &[("settings", "https://h/x")], &[])],
        next: None,
    });
    assert!(matches!(step, ResolveStep::Fail(Error::Empty)));
}

#[test]
fn first_unauthorized_authenticates_second_is_fatal() {
    let mut flow = AuthFlow::new();
    let d = flow.on_attempt(Err(Error::Unauthorized));
    assert!(matches!(d, AuthDecision::Authenticate));
    let d = flow.on_attempt(Err(Error::Unauthorized));
    assert!(matches!(d, AuthDecision::Fatal(Error::Unauthorized)));
}

#[test]
fn successful_retry_hands_out_the_containers() {
    let mut flow = AuthFlow::new();
    let d = flow.on_attempt(Err(Error::Unauthorized));
    assert!(matches!(d, AuthDecision::Authenticate));
    let d = flow.on_attempt(Ok(vec![entry("web-1", &[], &[])]));
    match d {
        AuthDecision::UseContainers(v) => assert_eq!(v.len(), 1),
        _ => panic!("a successful attempt must pass through"),
    }
}

#[test]
fn other_failures_are_fatal_at_once() {
    let mut flow = AuthFlow::new();
    let d = flow.on_attempt(Err(Error::Empty));
    assert!(matches!(d, AuthDecision::Fatal(Error::Empty)));
    let mut flow = AuthFlow::new();
    let d = flow.on_attempt(Err(Error::HttpError("connection refused".to_string())));
    match d {
        AuthDecision::Fatal(Error::HttpError(m)) => assert_eq!(m, "connection refused"),
        _ => panic!("a transport failure must be fatal"),
    }
}

#[test]
fn status_classification() {
    assert!(matches!(status_outcome(401), Err(Error::Unauthorized)));
    assert!(status_outcome(200).is_ok());
    assert!(status_outcome(404).is_ok());
}

#[test]
fn authed_url_escapes_the_token() {
    let h = HostAccess {
        token: "ab+c/d=".to_string(),
        url: "wss://h/exec".to_string(),
    };
    assert_eq!(h.authed_url(), "wss://h/exec?token=ab%2Bc%2Fd%3D");
    let h = HostAccess {
        token: "tok".to_string(),
        url: "wss://h/exec?x=1".to_string(),
    };
    assert_eq!(h.authed_url(), "wss://h/exec?x=1&token=tok");
}

#[test]
fn exchange_bodies_are_shaped_for_the_platform() {
    let t = TokenRequest::new("alice", "s3cret");
    assert_eq!(t.code, "alice:s3cret");
    assert_eq!(t.auth_provider, "ldapconfig");
    let k = ApiKeyRequest::for_account("1a1".to_string());
    assert_eq!(k.account_id, "1a1");
    assert_eq!(k.name, "rsh");
    assert_eq!(k.description, "Rancher SHell");
}

#[test]
fn endpoints_hang_off_the_base_url() {
    assert_eq!(index_url("https://h"), "https://h/v2-beta");
    assert_eq!(token_url("https://h"), "https://h/v2-beta/token");
    assert_eq!(api_key_url("https://h"), "https://h/v2-beta/apikey");
}

#[test]
fn exec_request_attaches_both_streams() {
    let e = ContainerExec::new(vec!["/bin/sh".to_string()], true);
    assert!(e.attach_stdin);
    assert!(e.attach_stdout);
    assert!(e.tty);
    assert_eq!(e.command, vec!["/bin/sh".to_string()]);
}
