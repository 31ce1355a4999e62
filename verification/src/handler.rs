//! The handler: it owns the schema and the context factory, routes each
//! request, and turns the body of a GraphQL request into exactly one
//! response.
//!
//! For one request the stages run in this order and no other: the transport
//! collects the body; the body is decoded; the context is made; the operation
//! is executed; the result is written. The first stage is the transport's.
//! [`Apollo::handle`] tells it when to run that stage, and
//! [`Apollo::graphql`] runs the others on what it collected.

use vstd::prelude::*;
use std::marker::PhantomData;
use juniper::http::{GraphQLRequest, GraphQLResponse};
use crate::envelope::{decode, decode_failure, encode, encoding, envelope_of};
use crate::error::{convert_error, converted, outcome_view, reply_view, Error, ErrorView};
use crate::message::{
    failure,
    html_page,
    json_result,
    not_found,
    Request,
    Response,
    ResponseView,
    Status,
};
use crate::page::{playground, playground_page};
use crate::route::{route, Route, GRAPHQL_ENDPOINT};

verus! {

/// A GraphQL endpoint: a schema, and a factory that makes the context of
/// each request.
///
/// The schema is whatever executes a decoded operation in a context. The
/// factory gets the head of the request and returns the context, or the
/// description of why there is none. Both are only ever called through `&`,
/// and the endpoint keeps no state of its own between requests.
#[verifier::reject_recursive_types(CtxT)]
pub struct Apollo<CtxFactory, CtxT, Schema> where
    CtxFactory: Fn(&Request) -> Result<CtxT, String>,
    Schema: for <'a, 'b>Fn(&'a GraphQLRequest, &'b CtxT) -> GraphQLResponse<'a>,
 {
    schema: Schema,
    context_factory: CtxFactory,
    context: PhantomData<CtxT>,
}

/// What the router asks of the transport.
#[derive(Debug)]
pub enum Dispatch {
    /// Send this response. The body of the request is of no interest.
    Reply(Response),
    /// Collect the whole body, then hand it to [`Apollo::graphql`].
    Aggregate,
}

impl Dispatch {
    /// Whether the transport is told to send `response`.
    pub open spec fn replies(self, response: ResponseView) -> bool {
        self matches Dispatch::Reply(reply) && reply@ == response
    }
}

/// The view of an encoding, or of the description of why there is none.
pub open spec fn text_view(encoded: Result<String, String>) -> Result<Seq<char>, Seq<char>> {
    match encoded {
        Ok(text) => Ok(text@),
        Err(description) => Err(description@),
    }
}

/// The outcome of writing a result: the text is the body of a 200 response
/// with the type `application/json`; where there is no text, that is a fault
/// of the codec.
pub open spec fn rendered<T>(encoded: Result<Seq<char>, Seq<char>>) -> Result<
    ResponseView,
    ErrorView<T>,
> {
    match encoded {
        Ok(text) => Ok(json_result(text)),
        Err(description) => Err(ErrorView::Serde(description)),
    }
}

/// Places an encoded result in its response.
pub fn render<T>(encoded: Result<String, String>) -> (outcome: Result<Response, Error<T>>)
    ensures
        outcome_view(outcome) == rendered::<T>(text_view(encoded)),
{
    match encoded {
        Ok(text) => Ok(Response::json(text)),
        Err(description) => Err(Error::Serde(description)),
    }
}

impl<CtxFactory, CtxT, Schema> Apollo<CtxFactory, CtxT, Schema> where
    CtxFactory: Fn(&Request) -> Result<CtxT, String>,
    Schema: for <'a, 'b>Fn(&'a GraphQLRequest, &'b CtxT) -> GraphQLResponse<'a>,
 {
    /// The schema that operations are executed against.
    pub closed spec fn schema(&self) -> Schema {
        self.schema
    }

    /// The factory that makes the context of each request.
    pub closed spec fn context_factory(&self) -> CtxFactory {
        self.context_factory
    }

    /// Both collaborators can be called with every argument.
    #[verifier::type_invariant]
    spec fn callable(&self) -> bool {
        &&& forall|request: &Request| call_requires(self.context_factory, (request,))
        &&& forall|envelope: &GraphQLRequest, context: &CtxT|
            call_requires(self.schema, (envelope, context))
    }

    /// An endpoint for a schema and a context factory, each of which can be
    /// called with every argument.
    pub fn new(schema: Schema, context_factory: CtxFactory) -> (apollo: Self)
        requires
            forall|request: &Request| call_requires(context_factory, (request,)),
            forall|envelope: &GraphQLRequest, context: &CtxT|
                call_requires(schema, (envelope, context)),
        ensures
            apollo.schema() == schema,
            apollo.context_factory() == context_factory,
    {
        Apollo { schema, context_factory, context: PhantomData }
    }

    /// Routes a request by its method and path, and by nothing else.
    ///
    /// `GET /` is answered at once with the playground page, which points at
    /// the GraphQL endpoint. `POST /graphql` needs its body first. Every
    /// other request is answered at once with 404 and an empty body.
    pub fn handle(&self, request: &Request) -> (dispatch: Dispatch)
        ensures
            request.method@ == "GET"@ && request.path@ == "/"@ ==> dispatch.replies(
                html_page(playground_page(GRAPHQL_ENDPOINT@)),
            ),
            request.method@ == "POST"@ && request.path@ == GRAPHQL_ENDPOINT@ ==> dispatch
                is Aggregate,
            !(request.method@ == "GET"@ && request.path@ == "/"@) && !(request.method@ == "POST"@
                && request.path@ == GRAPHQL_ENDPOINT@) ==> dispatch.replies(not_found()),
    {
        proof {
            reveal_strlit("GET");
            reveal_strlit("POST");
            assert("GET"@.len() != "POST"@.len());
        }
        match route(request.method.as_str(), request.path.as_str()) {
            Route::Playground => Dispatch::Reply(Response::html(playground(GRAPHQL_ENDPOINT))),
            Route::GraphQL => Dispatch::Aggregate,
            Route::NotFound => Dispatch::Reply(Response::not_found()),
        }
    }

    /// What may come of the execution of an envelope in a context: the
    /// schema is called with the two, and the outcome is that of writing the
    /// result that it returned, and no other.
    pub open spec fn executed<T>(
        &self,
        envelope: GraphQLRequest,
        context: CtxT,
        outcome: Result<ResponseView, ErrorView<T>>,
    ) -> bool {
        exists|result: GraphQLResponse| #[trigger]
            call_ensures(self.schema(), (&envelope, &context), result) && outcome == rendered::<T>(
                encoding(result),
            )
    }

    /// What may come of a request once its body is decoded.
    ///
    /// A body that is no envelope gives the codec's fault, with its
    /// description, and nothing else is called. For an envelope the factory
    /// is called with this request: if it fails, that is the fault; if it
    /// returns a context, the envelope is executed in that context.
    pub open spec fn ran<T>(
        &self,
        request: &Request,
        decoded: Result<GraphQLRequest, String>,
        outcome: Result<ResponseView, ErrorView<T>>,
    ) -> bool {
        match decoded {
            Err(description) => outcome == Err::<ResponseView, ErrorView<T>>(
                ErrorView::Serde(description@),
            ),
            Ok(envelope) => exists|made: Result<CtxT, String>|
                #[trigger] call_ensures(self.context_factory(), (request,), made) && match made {
                    Err(description) => outcome == Err::<ResponseView, ErrorView<T>>(
                        ErrorView::Context(description@),
                    ),
                    Ok(context) => self.executed(envelope, context, outcome),
                },
        }
    }

    /// What the transport may get back for a GraphQL request.
    ///
    /// A body stream that broke is passed on as it came, and nothing is
    /// rendered. A complete body that is no envelope is answered with the
    /// failure that describes why. A complete body that is an envelope is
    /// answered with what came of running that envelope, the faults of the
    /// factory and of the codec rendered as failures.
    pub open spec fn answered<T>(
        &self,
        request: &Request,
        body: Result<Vec<u8>, T>,
        reply: Result<ResponseView, T>,
    ) -> bool {
        match body {
            Err(fault) => reply == Err::<ResponseView, T>(fault),
            Ok(bytes) => match decode_failure(bytes@) {
                Some(description) => reply == Ok::<ResponseView, T>(failure(description)),
                None => exists|outcome: Result<ResponseView, ErrorView<T>>|
                    #![trigger self.ran(request, Ok(envelope_of(bytes@)), outcome)]
                    self.ran(request, Ok(envelope_of(bytes@)), outcome) && reply == converted(
                        outcome,
                    ),
            },
        }
    }

    /// Runs the stages that follow the decoding: makes the context for this
    /// request, executes the envelope in it, and writes the result that the
    /// schema returned.
    pub fn run<T>(&self, request: &Request, decoded: Result<GraphQLRequest, String>) -> (outcome:
        Result<Response, Error<T>>)
        ensures
            self.ran(request, decoded, outcome_view(outcome)),
    {
        proof {
            use_type_invariant(self);
        }
        let envelope = match decoded {
            Ok(envelope) => envelope,
            Err(description) => {
                return Err(Error::Serde(description));
            },
        };
        let made = (self.context_factory)(request);
        assert(call_ensures(self.context_factory(), (request,), made));
        let context = match made {
            Ok(context) => context,
            Err(description) => {
                return Err(Error::Context(description));
            },
        };
        let result = (self.schema)(&envelope, &context);
        assert(call_ensures(self.schema(), (&envelope, &context), result));
        let encoded = encode(&result);
        assert(text_view(encoded) == encoding(result));
        let outcome = render(encoded);
        assert(self.executed(envelope, context, outcome_view(outcome)));
        outcome
    }

    /// Decodes a complete body and runs the envelope that it holds, and no
    /// other.
    pub fn execute<T>(&self, request: &Request, body: &[u8]) -> (outcome: Result<
        Response,
        Error<T>,
    >)
        ensures
            match decode_failure(body@) {
                Some(description) => outcome_view(outcome) == Err::<ResponseView, ErrorView<T>>(
                    ErrorView::Serde(description),
                ),
                None => self.ran(request, Ok(envelope_of(body@)), outcome_view(outcome)),
            },
    {
        let decoded = decode(body);
        self.run(request, decoded)
    }

    /// Answers a GraphQL request once the transport is done with its body:
    /// the body as it was collected, or the fault that broke the stream.
    ///
    /// Every complete body gets a response, and only a broken stream gets
    /// none.
    pub fn graphql<T>(&self, request: &Request, body: Result<Vec<u8>, T>) -> (reply: Result<
        Response,
        T,
    >)
        ensures
            self.answered(request, body, reply_view(reply)),
            reply is Ok <==> body is Ok,
    {
        let outcome = match body {
            Err(fault) => Err(Error::Transport(fault)),
            Ok(bytes) => self.execute(request, bytes.as_slice()),
        };
        let reply = convert_error(outcome);
        proof {
            self.lemma_only_a_broken_stream_is_unanswered(request, body, reply_view(reply));
        }
        reply
    }

    /// Every complete body gets a response, and only a broken stream gets
    /// none: no fault of the codec, of the factory or of the execution
    /// leaves a request without its response.
    pub proof fn lemma_only_a_broken_stream_is_unanswered<T>(
        &self,
        request: &Request,
        body: Result<Vec<u8>, T>,
        reply: Result<ResponseView, T>,
    )
        requires
            self.answered(request, body, reply),
        ensures
            reply is Ok <==> body is Ok,
    {
    }

    /// Errors of the execution are data: once the context is made, whatever
    /// the schema returns, the outcome is the 200 response with the text that
    /// the codec wrote for it, and the one fault left is the codec's.
    pub proof fn lemma_execution_errors_are_data<T>(
        &self,
        envelope: GraphQLRequest,
        context: CtxT,
        outcome: Result<ResponseView, ErrorView<T>>,
    )
        requires
            self.executed(envelope, context, outcome),
        ensures
            match outcome {
                Ok(response) => response == json_result(response.body),
                Err(fault) => fault is Serde,
            },
    {
    }

    /// Whether two contexts, or two failures to make one, are the same.
    pub open spec fn same_made(first: Result<CtxT, String>, second: Result<CtxT, String>) -> bool {
        match (first, second) {
            (Ok(a), Ok(b)) => a == b,
            (Err(a), Err(b)) => a@ == b@,
            _ => false,
        }
    }

    /// Whether the collaborators are functions of their arguments: the
    /// factory makes one context for a request, or fails in one way, and the
    /// schema returns one result for an envelope in a context.
    pub open spec fn repeatable(&self) -> bool {
        &&& forall|request: &Request, first: Result<CtxT, String>, second: Result<CtxT, String>|
            #![trigger
                call_ensures(self.context_factory(), (request,), first),
                call_ensures(self.context_factory(), (request,), second)
            ]
            call_ensures(self.context_factory(), (request,), first) && call_ensures(
                self.context_factory(),
                (request,),
                second,
            ) ==> Self::same_made(first, second)
        &&& forall|
            envelope: GraphQLRequest,
            context: CtxT,
            first: GraphQLResponse,
            second: GraphQLResponse,
        |
            #![trigger
                call_ensures(self.schema(), (&envelope, &context), first),
                call_ensures(self.schema(), (&envelope, &context), second)
            ]
            call_ensures(self.schema(), (&envelope, &context), first) && call_ensures(
                self.schema(),
                (&envelope, &context),
                second,
            ) ==> first == second
    }

    /// The reply is a function of the request, the body and the
    /// collaborators alone: where these are functions of their arguments, a
    /// request that is repeated, with the same body, is answered the same
    /// every time, byte for byte and header for header.
    pub proof fn lemma_repeated_request_is_answered_alike<T>(
        &self,
        request: &Request,
        body: Result<Vec<u8>, T>,
        first: Result<ResponseView, T>,
        second: Result<ResponseView, T>,
    )
        requires
            self.repeatable(),
            self.answered(request, body, first),
            self.answered(request, body, second),
        ensures
            first == second,
    {
    }

    /// The reply to an envelope carries the result of its execution and
    /// nothing else: where the collaborators are functions of their
    /// arguments, the reply is that of writing what the schema returns for
    /// the envelope of this body, in the context made for this request. If
    /// the codec writes a text, the reply is the 200 response with that text,
    /// whatever the result holds: errors of the execution are data.
    pub proof fn lemma_reply_is_the_written_result<T>(
        &self,
        request: &Request,
        bytes: Vec<u8>,
        reply: Result<ResponseView, T>,
        context: CtxT,
        result: GraphQLResponse,
    )
        requires
            self.repeatable(),
            self.answered(request, Ok(bytes), reply),
            decode_failure(bytes@) is None,
            call_ensures(self.context_factory(), (request,), Ok::<CtxT, String>(context)),
            call_ensures(self.schema(), (&envelope_of(bytes@), &context), result),
        ensures
            reply == converted(rendered::<T>(encoding(result))),
            encoding(result) matches Ok(text) ==> reply == Ok::<ResponseView, T>(
                json_result(text),
            ),
    {
    }

    /// A 200 response to a GraphQL request is nothing but the text that the
    /// codec wrote: the status, the type `application/json`, no length of its
    /// own, and that text as the body. So two requests whose results are
    /// written to the same text are answered byte for byte alike.
    pub proof fn lemma_success_is_its_text<T>(
        &self,
        request: &Request,
        body: Result<Vec<u8>, T>,
        reply: Result<ResponseView, T>,
    )
        requires
            self.answered(request, body, reply),
            reply is Ok,
            reply->Ok_0.status == Status::Success,
        ensures
            reply->Ok_0 == json_result(reply->Ok_0.body),
    {
    }

    /// A 500 response to a GraphQL request is a failure response: a JSON
    /// body that describes the fault, and the length of that body in bytes.
    /// And there is no third status: a GraphQL request is answered with 200
    /// or with 500.
    pub proof fn lemma_failure_is_described<T>(
        &self,
        request: &Request,
        body: Result<Vec<u8>, T>,
        reply: Result<ResponseView, T>,
    )
        requires
            self.answered(request, body, reply),
            reply is Ok,
        ensures
            reply->Ok_0.status == Status::Success || reply->Ok_0.status == Status::ServerError,
            reply->Ok_0.status == Status::ServerError ==> exists|description: Seq<char>|
                reply->Ok_0 == #[trigger] failure(description),
    {
    }

    /// The reply to a body that is no envelope depends on the body alone:
    /// whichever endpoint is asked, by whichever request, however often, the
    /// reply is the same.
    pub proof fn lemma_decode_failure_is_repeated<T>(
        &self,
        request: &Request,
        other: &Self,
        other_request: &Request,
        bytes: Vec<u8>,
        reply: Result<ResponseView, T>,
        other_reply: Result<ResponseView, T>,
    )
        requires
            decode_failure(bytes@) is Some,
            self.answered(request, Ok(bytes), reply),
            other.answered(other_request, Ok(bytes), other_reply),
        ensures
            reply == other_reply,
    {
    }
}

} // verus!
