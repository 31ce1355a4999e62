//! The playground page: a fixed HTML document that loads an interactive
//! GraphQL client in the browser and points it at the endpoint that executes
//! operations.

use vstd::prelude::*;
use crate::text::occurs_at;

verus! {

/// The style sheet of the page.
pub const STYLESHEET: &'static str = r#"
    <style>
      body {
        background-color: rgb(23, 42, 58);
        font-family: Open Sans, sans-serif;
        height: 90vh;
      }
      .loading {
        font-size: 32px;
        font-weight: 200;
        color: rgba(255, 255, 255, .6);
        margin-left: 20px;
      }
      img {
        width: 78px;
        height: 78px;
      }
      .title {
        font-weight: 400;
      }
    </style>
    "#;

/// The page up to its style sheet.
pub const PAGE_HEAD: &'static str = r#"
<!DOCTYPE html>
<html>

<head>
  <meta charset=utf-8/>
  <meta name="viewport" content="user-scalable=no, initial-scale=1.0, minimum-scale=1.0, maximum-scale=1.0, minimal-ui">
  <title>GraphQL Playground</title>
  "#;

/// The page between its style sheet and the place of the endpoint.
pub const PAGE_MIDDLE: &'static str = r#"
  <link rel="stylesheet" href="//cdn.jsdelivr.net/npm/graphql-playground-react/build/static/css/index.css" />
  <link rel="shortcut icon" href="//cdn.jsdelivr.net/npm/graphql-playground-react/build/favicon.png" />
  <script src="//cdn.jsdelivr.net/npm/graphql-playground-react/build/static/js/middleware.js"></script>
</head>

<body>
  <div id="root">
    <img src='//cdn.jsdelivr.net/npm/graphql-playground-react/build/logo.png' alt=''>
    <div class="loading"> Loading
      <span class="title">GraphQL Playground</span>
    </div>
  </div>
  <script>window.addEventListener('load', function (event) {
      GraphQLPlayground.init(document.getElementById('root'), {
        // options as 'endpoint' belong here
        endpoint: '"#;

/// The page behind the place of the endpoint.
pub const PAGE_TAIL: &'static str = r#"'
      })
    })</script>
</body>

</html>
"#;

/// What stands in the page before the endpoint.
pub open spec fn before_endpoint() -> Seq<char> {
    PAGE_HEAD@ + STYLESHEET@ + PAGE_MIDDLE@
}

/// The playground page for an endpoint: the fixed document with the endpoint
/// written into the one place where the client is configured.
pub open spec fn playground_page(endpoint: Seq<char>) -> Seq<char> {
    before_endpoint() + endpoint + PAGE_TAIL@
}

/// Renders the playground page for the endpoint at `graphql_endpoint_url`.
pub fn playground(graphql_endpoint_url: &str) -> (page: String)
    ensures
        page@ == playground_page(graphql_endpoint_url@),
{
    let mut page = String::from_str(PAGE_HEAD);
    page.append(STYLESHEET);
    page.append(PAGE_MIDDLE);
    page.append(graphql_endpoint_url);
    page.append(PAGE_TAIL);
    page
}

/// The page embeds the endpoint it was rendered for, as it was given,
/// directly behind the fixed text that precedes it.
pub proof fn lemma_page_embeds_endpoint(endpoint: Seq<char>)
    ensures
        occurs_at(playground_page(endpoint), endpoint, before_endpoint().len() as int),
{
    let at = before_endpoint().len() as int;
    assert(playground_page(endpoint).subrange(at, at + endpoint.len()) =~= endpoint);
}

/// Pages for different endpoints differ: the endpoint can be read off the page.
pub proof fn lemma_page_tells_endpoint(first: Seq<char>, second: Seq<char>)
    requires
        playground_page(first) == playground_page(second),
    ensures
        first == second,
{
    let at = before_endpoint().len() as int;
    let tail = PAGE_TAIL@.len() as int;
    assert(first.len() == second.len()) by {
        assert(playground_page(first).len() == at + first.len() + tail);
        assert(playground_page(second).len() == at + second.len() + tail);
    }
    lemma_page_embeds_endpoint(first);
    lemma_page_embeds_endpoint(second);
}

} // verus!
