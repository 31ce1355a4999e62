use apollo::error::Error;
use apollo::handler::{render, Apollo, Dispatch};
use apollo::message::{ContentType, Request, Response, Status};
use juniper::http::{GraphQLRequest, GraphQLResponse};
use juniper::meta::MetaType;
use juniper::{Arguments, EmptyMutation, ExecutionResult, Executor, GraphQLType, Registry, RootNode};

/// What a resolver sees of the request it runs for.
struct Context {
    caller: String,
}

impl juniper::Context for Context {}

struct Query;

impl GraphQLType for Query {
    type Context = Context;
    type TypeInfo = ();

    fn name(_: &()) -> Option<&'static str> {
        Some("Query")
    }

    fn meta<'r>(_: &(), registry: &mut Registry<'r>) -> MetaType<'r> {
        let echo = registry.arg::<String>("msg", &());
        let fields = [
            registry.field::<String>("hello", &()),
            registry.field::<String>("echo", &()).argument(echo),
            registry.field::<String>("caller", &()),
        ];
        registry.build_object_type::<Query>(&(), &fields).into_meta()
    }

    fn resolve_field(
        &self,
        info: &(),
        field_name: &str,
        arguments: &Arguments,
        executor: &Executor<Context>,
    ) -> ExecutionResult {
        match field_name {
            "hello" => executor.resolve_with_ctx(info, &"Hello World".to_string()),
            "echo" => {
                let msg: String = arguments.get("msg").unwrap();
                executor.resolve_with_ctx(info, &msg)
            }
            "caller" => executor.resolve_with_ctx(info, &executor.context().caller),
            _ => panic!("no field {} on Query", field_name),
        }
    }
}

fn caller_of(request: &Request) -> String {
    for (name, value) in &request.headers {
        if name == "x-caller" {
            return value.clone();
        }
    }
    String::new()
}

fn endpoint() -> Apollo<
    impl Fn(&Request) -> Result<Context, String>,
    Context,
    impl for<'a, 'b> Fn(&'a GraphQLRequest, &'b Context) -> GraphQLResponse<'a>,
> {
    let root = RootNode::new(Query, EmptyMutation::<Context>::new());
    Apollo::new(
        move |envelope: &GraphQLRequest, context: &Context| envelope.execute(&root, context),
        |request: &Request| Ok(Context { caller: caller_of(request) }),
    )
}

fn post(caller: &str) -> Request {
    Request {
        method: "POST".to_string(),
        path: "/graphql".to_string(),
        query: None,
        headers: vec![("x-caller".to_string(), caller.to_string())],
    }
}

fn answer(apollo: &Apollo<
    impl Fn(&Request) -> Result<Context, String>,
    Context,
    impl for<'a, 'b> Fn(&'a GraphQLRequest, &'b Context) -> GraphQLResponse<'a>,
>, request: &Request, body: &str) -> Response {
    match apollo.handle(request) {
        Dispatch::Aggregate => {}
        Dispatch::Reply(response) => panic!("not routed to the handler: {:?}", response),
    }
    let reply: Result<Response, String> = apollo.graphql(request, Ok(body.as_bytes().to_vec()));
    reply.unwrap()
}

fn parsed(body: &str) -> serde_json::Value {
    serde_json::from_str(body).unwrap()
}

#[test]
fn hello_is_answered_with_its_data() {
    let apollo = endpoint();
    let response = answer(&apollo, &post("a"), "{\"query\": \"{ hello }\"}");
    assert_eq!(response.status, Status::Success);
    assert_eq!(response.status.code(), 200);
    assert_eq!(response.content_type, Some(ContentType::Json));
    assert_eq!(response.content_length, None);
    assert_eq!(parsed(&response.body), parsed("{\"data\":{\"hello\":\"Hello World\"}}"));
    assert!(parsed(&response.body).get("errors").is_none());
}

#[test]
fn hello_is_pretty_printed() {
    let apollo = endpoint();
    let response = answer(&apollo, &post("a"), "{\"query\": \"{ hello }\"}");
    assert_eq!(response.body, "{\n  \"data\": {\n    \"hello\": \"Hello World\"\n  }\n}");
}

#[test]
fn operation_name_and_variables_are_honoured() {
    let apollo = endpoint();
    let body = "{\"query\": \"query A { hello } query B($m: String!) { echo(msg: $m) }\", \
                \"operationName\": \"B\", \"variables\": {\"m\": \"hi\"}}";
    let response = answer(&apollo, &post("a"), body);
    assert_eq!(response.status.code(), 200);
    assert_eq!(parsed(&response.body), parsed("{\"data\":{\"echo\":\"hi\"}}"));
}

#[test]
fn truncated_body_is_a_decode_failure() {
    let apollo = endpoint();
    let body = "{\"query\":";
    let response = answer(&apollo, &post("a"), body);
    assert_eq!(response.status, Status::ServerError);
    assert_eq!(response.status.code(), 500);
    assert_eq!(response.content_type, Some(ContentType::Json));
    assert_eq!(response.content_length, Some(response.body.len()));

    let expected = serde_json::from_slice::<GraphQLRequest>(body.as_bytes()).unwrap_err().to_string();
    assert_eq!(expected, "EOF while parsing a value at line 1 column 9");
    assert_eq!(
        response.body,
        "{\"status\": 500, \"description\": \"EOF while parsing a value at line 1 column 9\"}"
    );
    let json = parsed(&response.body);
    assert_eq!(json.get("status").and_then(|s| s.as_u64()), Some(500));
    let description = json.get("description").and_then(|d| d.as_str()).unwrap();
    assert!(!description.is_empty());
    assert_eq!(description, expected);
}

#[test]
fn empty_body_is_a_decode_failure() {
    let apollo = endpoint();
    let response = answer(&apollo, &post("a"), "");
    assert_eq!(response.status.code(), 500);
    assert_eq!(
        response.body,
        "{\"status\": 500, \"description\": \"EOF while parsing a value at line 1 column 0\"}"
    );
    assert_eq!(response.content_length, Some(response.body.len()));
}

#[test]
fn missing_query_is_a_decode_failure() {
    let apollo = endpoint();
    let response = answer(&apollo, &post("a"), "{\"operationName\": \"A\"}");
    assert_eq!(response.status.code(), 500);
    let json = parsed(&response.body);
    assert_eq!(
        json.get("description").and_then(|d| d.as_str()),
        Some("missing field `query` at line 1 column 22")
    );
}

#[test]
fn description_with_quotes_stays_json() {
    let apollo = endpoint();
    let body = "\"abc\"";
    let response = answer(&apollo, &post("a"), body);
    assert_eq!(response.status.code(), 500);
    assert_eq!(response.content_length, Some(response.body.len()));
    let expected = serde_json::from_slice::<GraphQLRequest>(body.as_bytes()).unwrap_err().to_string();
    assert!(expected.contains('"'));
    let json = parsed(&response.body);
    assert_eq!(json.get("status").and_then(|s| s.as_u64()), Some(500));
    assert_eq!(json.get("description").and_then(|d| d.as_str()), Some(expected.as_str()));
}

#[test]
fn description_beyond_ascii_is_counted_in_bytes() {
    let apollo = endpoint();
    let body = "{\"query\": \"x\", \"\u{e9}t\u{e9}\": 1, \"query\": \"y\"}";
    let response = answer(&apollo, &post("a"), body);
    assert_eq!(response.status.code(), 500);
    assert_eq!(response.content_length, Some(response.body.len()));
    assert!(parsed(&response.body).get("description").is_some());
}

#[test]
fn undefined_field_is_an_execution_error() {
    let apollo = endpoint();
    let response = answer(&apollo, &post("a"), "{\"query\": \"{ nothing }\"}");
    assert_eq!(response.status, Status::Success);
    assert_eq!(response.status.code(), 200);
    assert_eq!(response.content_type, Some(ContentType::Json));
    let json = parsed(&response.body);
    let errors = json.get("errors").and_then(|e| e.as_array()).unwrap();
    assert!(!errors.is_empty());
    assert!(json.get("data").map_or(true, |d| d.is_null()));
}

#[test]
fn malformed_operation_is_an_execution_error() {
    let apollo = endpoint();
    let response = answer(&apollo, &post("a"), "{\"query\": \"{ hello\"}");
    assert_eq!(response.status.code(), 200);
    let json = parsed(&response.body);
    assert!(!json.get("errors").and_then(|e| e.as_array()).unwrap().is_empty());
}

#[test]
fn each_request_gets_its_own_echo() {
    let apollo = endpoint();
    let n = 32;
    let mut responses = Vec::new();
    for i in 0..n {
        let body = format!("{{\"query\": \"{{ echo(msg: \\\"{}\\\") }}\"}}", i);
        responses.push(answer(&apollo, &post("a"), &body));
    }
    for i in 0..n {
        let response = &responses[i];
        assert_eq!(response.status.code(), 200);
        let expected = format!("{{\"data\":{{\"echo\":\"{}\"}}}}", i);
        assert_eq!(parsed(&response.body), parsed(&expected));
    }
}

#[test]
fn each_request_runs_in_its_own_context() {
    let apollo = endpoint();
    let first = post("first");
    let second = post("second");
    assert!(matches!(apollo.handle(&first), Dispatch::Aggregate));
    assert!(matches!(apollo.handle(&second), Dispatch::Aggregate));
    let body = "{\"query\": \"{ caller }\"}";
    let b: Result<Response, String> = apollo.graphql(&second, Ok(body.as_bytes().to_vec()));
    let a: Result<Response, String> = apollo.graphql(&first, Ok(body.as_bytes().to_vec()));
    assert_eq!(parsed(&a.unwrap().body), parsed("{\"data\":{\"caller\":\"first\"}}"));
    assert_eq!(parsed(&b.unwrap().body), parsed("{\"data\":{\"caller\":\"second\"}}"));
    let again = answer(&apollo, &first, body);
    assert_eq!(parsed(&again.body), parsed("{\"data\":{\"caller\":\"first\"}}"));
}

#[test]
fn repeated_query_gives_identical_bytes() {
    let apollo = endpoint();
    let first = answer(&apollo, &post("a"), "{\"query\": \"{ hello }\"}");
    for _ in 0..10 {
        let next = answer(&apollo, &post("a"), "{\"query\": \"{ hello }\"}");
        assert_eq!(next, first);
        assert_eq!(next.body.as_bytes(), first.body.as_bytes());
    }
}

#[test]
fn repeated_failure_gives_identical_bytes() {
    let apollo = endpoint();
    let first = answer(&apollo, &post("a"), "{\"query\":");
    let next = answer(&apollo, &post("b"), "{\"query\":");
    assert_eq!(next, first);
}

#[test]
fn broken_stream_is_passed_on() {
    let apollo = endpoint();
    let reply: Result<Response, String> = apollo.graphql(&post("a"), Err("connection reset".to_string()));
    assert_eq!(reply, Err("connection reset".to_string()));
}

#[test]
fn failing_factory_is_a_server_error() {
    let root = RootNode::new(Query, EmptyMutation::<Context>::new());
    let apollo = Apollo::new(
        move |envelope: &GraphQLRequest, context: &Context| envelope.execute(&root, context),
        |_: &Request| -> Result<Context, String> { Err("pool \"main\" exhausted".to_string()) },
    );
    let reply: Result<Response, String> =
        apollo.graphql(&post("a"), Ok("{\"query\": \"{ hello }\"}".as_bytes().to_vec()));
    let response = reply.unwrap();
    assert_eq!(response.status.code(), 500);
    assert_eq!(response.content_type, Some(ContentType::Json));
    assert_eq!(response.content_length, Some(response.body.len()));
    assert_eq!(
        response.body,
        "{\"status\": 500, \"description\": \"pool \\\"main\\\" exhausted\"}"
    );
}

#[test]
fn factory_is_not_asked_for_a_body_that_is_no_envelope() {
    let root = RootNode::new(Query, EmptyMutation::<Context>::new());
    let apollo = Apollo::new(
        move |envelope: &GraphQLRequest, context: &Context| envelope.execute(&root, context),
        |_: &Request| -> Result<Context, String> { Err("not reached".to_string()) },
    );
    let reply: Result<Response, String> = apollo.graphql(&post("a"), Ok("{".as_bytes().to_vec()));
    let response = reply.unwrap();
    let json = parsed(&response.body);
    assert_eq!(
        json.get("description").and_then(|d| d.as_str()),
        Some("EOF while parsing an object at line 1 column 1")
    );
}

#[test]
fn execute_tells_the_fault_of_the_codec() {
    let apollo = endpoint();
    let outcome: Result<Response, Error<String>> = apollo.execute(&post("a"), "{\"query\":".as_bytes());
    match outcome {
        Err(Error::Serde(description)) => {
            assert_eq!(description, "EOF while parsing a value at line 1 column 9")
        }
        other => panic!("unexpected outcome: {:?}", other),
    }
}

#[test]
fn run_takes_the_decoded_envelope() {
    let apollo = endpoint();
    let envelope = GraphQLRequest::new("{ hello }".to_string(), None, None);
    let outcome: Result<Response, Error<String>> = apollo.run(&post("a"), Ok(envelope));
    let response = outcome.unwrap();
    assert_eq!(response.status.code(), 200);
    assert_eq!(parsed(&response.body), parsed("{\"data\":{\"hello\":\"Hello World\"}}"));

    let outcome: Result<Response, Error<String>> = apollo.run(&post("a"), Err("no envelope".to_string()));
    match outcome {
        Err(Error::Serde(description)) => assert_eq!(description, "no envelope"),
        other => panic!("unexpected outcome: {:?}", other),
    }
}

#[test]
fn render_places_the_text_in_a_json_response() {
    let outcome: Result<Response, Error<String>> = render(Ok("{\"data\": null}".to_string()));
    let response = outcome.unwrap();
    assert_eq!(response.status.code(), 200);
    assert_eq!(response.content_type, Some(ContentType::Json));
    assert_eq!(response.content_length, None);
    assert_eq!(response.body, "{\"data\": null}");

    let outcome: Result<Response, Error<String>> = render(Err("key must be a string".to_string()));
    match outcome {
        Err(Error::Serde(description)) => assert_eq!(description, "key must be a string"),
        other => panic!("unexpected outcome: {:?}", other),
    }
}

fn shareable<T: Send + Sync>(_: &T) {}

#[test]
fn endpoint_can_be_shared_between_threads() {
    let apollo = endpoint();
    shareable(&apollo);
    let shared = std::sync::Arc::new(apollo);
    let other = std::sync::Arc::clone(&shared);
    let a = answer(&shared, &post("a"), "{\"query\": \"{ caller }\"}");
    let b = answer(&other, &post("b"), "{\"query\": \"{ caller }\"}");
    assert_eq!(parsed(&a.body), parsed("{\"data\":{\"caller\":\"a\"}}"));
    assert_eq!(parsed(&b.body), parsed("{\"data\":{\"caller\":\"b\"}}"));
}

#[test]
fn factory_sees_the_query_of_the_request() {
    let root = RootNode::new(Query, EmptyMutation::<Context>::new());
    let apollo = Apollo::new(
        move |envelope: &GraphQLRequest, context: &Context| envelope.execute(&root, context),
        |request: &Request| -> Result<Context, String> {
            Ok(Context { caller: request.query.clone().unwrap_or_default() })
        },
    );
    let mut request = post("ignored");
    request.query = Some("token=abc".to_string());
    let reply: Result<Response, String> =
        apollo.graphql(&request, Ok("{\"query\": \"{ caller }\"}".as_bytes().to_vec()));
    assert_eq!(parsed(&reply.unwrap().body), parsed("{\"data\":{\"caller\":\"token=abc\"}}"));
}
