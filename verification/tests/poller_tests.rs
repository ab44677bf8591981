use save2read::auth::TokenStorage;
use save2read::poller::{classify, Command, PollAction, PollEvent, Poller};
use save2read::storage::ArticleData;
use save2read::telegram_api::{Chat, Message, ParseMode, SendMessage, Update};

fn upd(update_id: i32, chat_id: i64, text: Option<&str>) -> Update {
    Update {
        update_id,
        message: Message {
            message_id: 0,
            from: None,
            text: text.map(|t| t.to_string()),
            chat: Chat { id: chat_id },
        },
    }
}

const BASE: &str = "http://host:8080";
const NOW: u64 = 100;

fn token() -> String {
    "Abcdefghij0123456789KLMNOPQRST".to_string()
}

#[test]
fn test_classify_texts() {
    assert_eq!(classify(&Some("/auth".to_string())), Command::Auth);
    assert_eq!(
        classify(&Some("http://example.com".to_string())),
        Command::SaveUrl("http://example.com/".to_string())
    );
    assert_eq!(classify(&Some("hello there".to_string())), Command::Ignore);
    assert_eq!(classify(&None), Command::Ignore);
    // A relative path is not an absolute URL.
    assert_eq!(classify(&Some("/archived".to_string())), Command::Ignore);
}

#[test]
fn test_offset_monotonic_over_batch() {
    // A batch with ids 5, 6, 7 of no-op updates: after one poll cycle the
    // next fetch must ask for offset 8.
    let mut poller = Poller::new();
    let mut tokens = TokenStorage::new(120);
    assert_eq!(poller.next_offset(), 0);
    let batch = vec![
        upd(5, 1, None),
        upd(6, 1, Some("just words")),
        upd(7, 1, None),
    ];
    let action = poller.step(&mut tokens, PollEvent::Updates(batch), token(), NOW, BASE);
    assert_eq!(action, PollAction::Fetch { offset: 8 });
    assert_eq!(poller.next_offset(), 8);
}

#[test]
fn test_partial_failure_isolation() {
    // Updates 5, 6 and 7 each carry a URL. Update 6's extraction fails:
    // 5 and 7 are still dispatched exactly once each, in id order, and
    // the offset still ends past the whole batch.
    let mut poller = Poller::new();
    let mut tokens = TokenStorage::new(120);
    let batch = vec![
        upd(5, 1, Some("http://five.example")),
        upd(6, 1, Some("http://six.example")),
        upd(7, 1, Some("http://seven.example")),
    ];

    let a1 = poller.step(&mut tokens, PollEvent::Updates(batch), token(), NOW, BASE);
    assert_eq!(a1, PollAction::Extract { url: "http://five.example/".to_string() });

    let a2 = poller.step(
        &mut tokens,
        PollEvent::Extracted(Some("Five".to_string())),
        token(),
        NOW,
        BASE,
    );
    assert_eq!(
        a2,
        PollAction::Persist {
            article: ArticleData {
                user_id: 1,
                url: "http://five.example/".to_string(),
                title: Some("Five".to_string()),
            }
        }
    );

    let a3 = poller.step(&mut tokens, PollEvent::Persisted(1), token(), NOW, BASE);
    match a3 {
        PollAction::Send { message } => assert_eq!(message.chat_id, "1"),
        other => panic!("expected an acknowledgement, got {:?}", other),
    }

    let a4 = poller.step(&mut tokens, PollEvent::SendOk, token(), NOW, BASE);
    assert_eq!(a4, PollAction::Extract { url: "http://six.example/".to_string() });

    // Update 6's collaborator fails; the walk moves straight to update 7.
    let a5 = poller.step(&mut tokens, PollEvent::ExtractFailed, token(), NOW, BASE);
    assert_eq!(a5, PollAction::Extract { url: "http://seven.example/".to_string() });
    // The offset had already advanced past 6 before its processing.
    assert_eq!(poller.next_offset(), 8);

    let a6 = poller.step(&mut tokens, PollEvent::Extracted(None), token(), NOW, BASE);
    assert_eq!(
        a6,
        PollAction::Persist {
            article: ArticleData {
                user_id: 1,
                url: "http://seven.example/".to_string(),
                title: None,
            }
        }
    );

    // Persistence of update 7 fails: no acknowledgement is sent, the
    // batch is done, and the next fetch asks past it.
    let a7 = poller.step(&mut tokens, PollEvent::PersistFailed, token(), NOW, BASE);
    assert_eq!(a7, PollAction::Fetch { offset: 8 });
}

#[test]
fn test_auth_scenario_end_to_end() {
    // "/auth" from chat 42: a token is issued bound to user 42 and the
    // reply carries {base_url}/auth/{token}; redeeming the token once
    // authenticates user 42, a second redemption yields nothing.
    let mut poller = Poller::new();
    let mut tokens = TokenStorage::new(120);
    let tok = token();

    let action = poller.step(
        &mut tokens,
        PollEvent::Updates(vec![upd(1, 42, Some("/auth"))]),
        tok.clone(),
        NOW,
        BASE,
    );
    assert_eq!(
        action,
        PollAction::Send {
            message: SendMessage {
                chat_id: "42".to_string(),
                text: format!("{}/auth/{}", BASE, tok),
                parse_mode: Some(ParseMode::Markdown),
                reply_to_message_id: None,
            }
        }
    );

    // The web route redeems the token from the link exactly once.
    assert_eq!(tokens.pop(&tok, NOW + 5).unwrap(), Some(42));
    assert_eq!(tokens.pop(&tok, NOW + 6).unwrap(), None);

    // The reply's delivery is acknowledged and the loop goes back to
    // fetching.
    let next = poller.step(&mut tokens, PollEvent::SendOk, token(), NOW, BASE);
    assert_eq!(next, PollAction::Fetch { offset: 2 });
}

#[test]
fn test_auth_collision_skips_update() {
    // Two "/auth" updates arrive in one batch and the step was handed a
    // single candidate token: the second issue collides, fails alone,
    // and the batch still completes.
    let mut poller = Poller::new();
    let mut tokens = TokenStorage::new(120);
    let tok = token();

    let a1 = poller.step(
        &mut tokens,
        PollEvent::Updates(vec![upd(1, 42, Some("/auth")), upd(2, 43, Some("/auth"))]),
        tok.clone(),
        NOW,
        BASE,
    );
    match a1 {
        PollAction::Send { message } => assert_eq!(message.chat_id, "42"),
        other => panic!("expected the login link for 42, got {:?}", other),
    }

    let a2 = poller.step(&mut tokens, PollEvent::SendOk, tok.clone(), NOW, BASE);
    assert_eq!(a2, PollAction::Fetch { offset: 3 });

    // The token still belongs to the first requester.
    assert_eq!(tokens.pop(&tok, NOW).unwrap(), Some(42));
}

#[test]
fn test_url_save_scenario() {
    // "http://example.com" from chat 7: the title is extracted, the
    // article {user 7, url, title} is persisted, then an acknowledgement
    // is sent.
    let mut poller = Poller::new();
    let mut tokens = TokenStorage::new(120);

    let a1 = poller.step(
        &mut tokens,
        PollEvent::Updates(vec![upd(10, 7, Some("http://example.com"))]),
        token(),
        NOW,
        BASE,
    );
    assert_eq!(a1, PollAction::Extract { url: "http://example.com/".to_string() });

    let a2 = poller.step(
        &mut tokens,
        PollEvent::Extracted(Some("Example".to_string())),
        token(),
        NOW,
        BASE,
    );
    assert_eq!(
        a2,
        PollAction::Persist {
            article: ArticleData {
                user_id: 7,
                url: "http://example.com/".to_string(),
                title: Some("Example".to_string()),
            }
        }
    );

    let a3 = poller.step(&mut tokens, PollEvent::Persisted(1), token(), NOW, BASE);
    assert_eq!(
        a3,
        PollAction::Send {
            message: SendMessage {
                chat_id: "7".to_string(),
                text: "7".to_string(),
                parse_mode: None,
                reply_to_message_id: None,
            }
        }
    );

    let a4 = poller.step(&mut tokens, PollEvent::SendOk, token(), NOW, BASE);
    assert_eq!(a4, PollAction::Fetch { offset: 11 });
}

#[test]
fn test_fetch_failure_retries_same_offset() {
    let mut poller = Poller::new();
    let mut tokens = TokenStorage::new(120);
    let a1 = poller.step(&mut tokens, PollEvent::FetchFailed, token(), NOW, BASE);
    assert_eq!(a1, PollAction::Fetch { offset: 0 });

    // After a batch, a failed fetch retries one past the last update.
    let a2 = poller.step(
        &mut tokens,
        PollEvent::Updates(vec![upd(3, 1, None)]),
        token(),
        NOW,
        BASE,
    );
    assert_eq!(a2, PollAction::Fetch { offset: 4 });
    let a3 = poller.step(&mut tokens, PollEvent::FetchFailed, token(), NOW, BASE);
    assert_eq!(a3, PollAction::Fetch { offset: 4 });
}

#[test]
fn test_empty_batch_keeps_offset() {
    let mut poller = Poller::new();
    let mut tokens = TokenStorage::new(120);
    let a1 = poller.step(&mut tokens, PollEvent::Updates(vec![]), token(), NOW, BASE);
    assert_eq!(a1, PollAction::Fetch { offset: 0 });
}

#[test]
fn test_accepts_follows_phase() {
    let mut poller = Poller::new();
    let mut tokens = TokenStorage::new(120);
    assert!(poller.accepts(&PollEvent::Updates(vec![])));
    assert!(poller.accepts(&PollEvent::FetchFailed));
    assert!(!poller.accepts(&PollEvent::SendOk));

    poller.step(
        &mut tokens,
        PollEvent::Updates(vec![upd(1, 7, Some("http://example.com"))]),
        token(),
        NOW,
        BASE,
    );
    assert!(poller.accepts(&PollEvent::Extracted(None)));
    assert!(poller.accepts(&PollEvent::ExtractFailed));
    assert!(!poller.accepts(&PollEvent::Updates(vec![])));
}
