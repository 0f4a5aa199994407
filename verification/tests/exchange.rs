use chat_relay::chat::{
    chat_reply, chat_request, commit_exchange, initialized, open_exchange, ChatError, Choice,
    Data, Message, Request, Response, Role, Upstream, Usage, MODEL,
};

fn message(role: Role, text: &str) -> Message {
    Message { role, content: text.to_owned() }
}

fn response(replies: &[&str]) -> Response {
    Response {
        id: "chatcmpl-1".to_owned(),
        object: "chat.completion".to_owned(),
        created: 1_700_000_000,
        choices: replies
            .iter()
            .enumerate()
            .map(|(index, text)| Choice {
                index: index as u32,
                message: message(Role::Assistant, text),
                finish_reason: "stop".to_owned(),
            })
            .collect(),
        usage: Usage { prompt_tokens: 3, completion_tokens: 4, total_tokens: 7 },
    }
}

fn answered(status: u16, replies: &[&str]) -> Upstream {
    Upstream::Answered { status, body: Some(response(replies)) }
}

fn texts(data: &Data) -> Vec<String> {
    data.histories().into_iter().map(|m| m.content).collect()
}

#[test]
fn request_holds_the_history_then_the_new_message() {
    let histories = vec![message(Role::User, "one"), message(Role::Assistant, "two")];
    let (new, request) = chat_request(&histories, Role::System, "three");
    assert_eq!(new, message(Role::System, "three"));
    assert_eq!(
        request,
        Request {
            model: "gpt-3.5-turbo".to_owned(),
            messages: vec![
                message(Role::User, "one"),
                message(Role::Assistant, "two"),
                message(Role::System, "three"),
            ],
        }
    );
    assert_eq!(MODEL, "gpt-3.5-turbo");
}

#[test]
fn request_from_an_empty_history_holds_only_the_new_message() {
    let (new, request) = chat_request(&[], Role::User, "hi");
    assert_eq!(request.messages, vec![new]);
}

#[test]
fn open_exchange_reads_the_store() {
    let mut data = Data::new(2);
    data.add_history(message(Role::User, "A"));
    data.add_history(message(Role::Assistant, "B"));
    data.add_history(message(Role::User, "C"));
    let (new, request) = open_exchange(&data, Role::User, "D");
    assert_eq!(new, message(Role::User, "D"));
    assert_eq!(
        request.messages,
        vec![message(Role::Assistant, "B"), message(Role::User, "C"), message(Role::User, "D")]
    );
    assert_eq!(texts(&data), vec!["B", "C"]);
}

#[test]
fn reply_is_the_first_choice() {
    assert_eq!(
        chat_reply(&answered(200, &["first", "second"])),
        Ok(message(Role::Assistant, "first"))
    );
    assert_eq!(chat_reply(&answered(299, &["ok"])), Ok(message(Role::Assistant, "ok")));
}

#[test]
fn no_answer_is_a_transport_failure() {
    assert_eq!(chat_reply(&Upstream::Unreachable), Err(ChatError::UpstreamTransport));
}

#[test]
fn bad_status_is_a_response_failure() {
    for status in [199u16, 300, 401, 404, 429, 500, 503] {
        assert_eq!(chat_reply(&answered(status, &["x"])), Err(ChatError::UpstreamResponse));
    }
}

#[test]
fn unreadable_body_is_a_response_failure() {
    let upstream = Upstream::Answered { status: 200, body: None };
    assert_eq!(chat_reply(&upstream), Err(ChatError::UpstreamResponse));
}

#[test]
fn zero_choices_is_a_response_failure() {
    assert_eq!(chat_reply(&answered(200, &[])), Err(ChatError::UpstreamResponse));
}

#[test]
fn success_appends_user_then_assistant_and_returns_the_reply() {
    let mut data = Data::new(10);
    data.add_history(message(Role::System, "be brief"));
    let (new, _) = open_exchange(&data, Role::User, "hi");
    let outcome = commit_exchange(&mut data, new, &answered(200, &["hello"]));
    assert_eq!(outcome, Ok("hello".to_owned()));
    assert_eq!(
        data.histories(),
        vec![
            message(Role::System, "be brief"),
            message(Role::User, "hi"),
            message(Role::Assistant, "hello"),
        ]
    );
}

#[test]
fn failure_appends_nothing() {
    let failures = [
        (Upstream::Unreachable, ChatError::UpstreamTransport),
        (answered(500, &["x"]), ChatError::UpstreamResponse),
        (answered(200, &[]), ChatError::UpstreamResponse),
        (Upstream::Answered { status: 200, body: None }, ChatError::UpstreamResponse),
    ];
    for (upstream, failure) in failures {
        let mut data = Data::new(4);
        data.add_history(message(Role::User, "A"));
        data.add_history(message(Role::Assistant, "B"));
        let (new, _) = open_exchange(&data, Role::User, "hi");
        assert_eq!(commit_exchange(&mut data, new, &upstream), Err(failure));
        assert_eq!(data.len(), 2);
        assert_eq!(texts(&data), vec!["A", "B"]);
        assert_eq!(data.histsize(), 4);
    }
}

#[test]
fn scenario_low_capacity_eviction() {
    let mut data = Data::new(3);
    for text in ["A", "B", "C", "D"] {
        data.add_history(message(Role::User, text));
    }
    assert_eq!(texts(&data), vec!["B", "C", "D"]);
    assert_eq!(data.set_histsize(1), 3);
    assert_eq!(texts(&data), vec!["D"]);
    let (new, request) = open_exchange(&data, Role::User, "hi");
    assert_eq!(request.messages, vec![message(Role::User, "D"), message(Role::User, "hi")]);
    let outcome = commit_exchange(&mut data, new, &answered(200, &["hello"]));
    assert_eq!(outcome, Ok("hello".to_owned()));
    assert_eq!(data.histories(), vec![message(Role::Assistant, "hello")]);
}

#[test]
fn exchange_with_capacity_zero_keeps_nothing() {
    let mut data = Data::new(0);
    let (new, request) = open_exchange(&data, Role::User, "hi");
    assert_eq!(request.messages, vec![message(Role::User, "hi")]);
    assert_eq!(
        commit_exchange(&mut data, new, &answered(200, &["hello"])),
        Ok("hello".to_owned())
    );
    assert!(data.histories().is_empty());
}

#[test]
fn two_exchanges_from_one_snapshot_commit_in_append_order() {
    let mut data = Data::new(10);
    let (first, _) = open_exchange(&data, Role::User, "one");
    let (second, _) = open_exchange(&data, Role::User, "two");
    assert_eq!(commit_exchange(&mut data, second, &answered(200, &["2"])), Ok("2".to_owned()));
    assert_eq!(commit_exchange(&mut data, first, &answered(200, &["1"])), Ok("1".to_owned()));
    assert_eq!(texts(&data), vec!["two", "2", "one", "1"]);
}

#[test]
fn copies_of_requests_and_responses_are_equal() {
    let (_, request) = chat_request(&[message(Role::User, "A")], Role::User, "B");
    assert_eq!(request.clone(), request);
    let body = response(&["x", "y"]);
    assert_eq!(body.clone(), body);
    assert_eq!(body.choices[1].clone(), body.choices[1]);
}

#[test]
fn a_store_that_was_not_set_up_is_reported() {
    let missing: Option<&Data> = None;
    assert_eq!(initialized(missing).err(), Some(ChatError::UninitializedStore));
    let data = Data::new(2);
    assert_eq!(initialized(Some(&data)).map(|store| store.histsize()), Ok(2));
}
