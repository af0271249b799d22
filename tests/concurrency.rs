use std::sync::Arc;

use lambda_rocket::envelope::{build_response, ResponseDescriptor};
use lambda_rocket::translate::{translate, InvocationEvent};
use rocket::http::Method;
use rocket::local::asynchronous::Client;
use rocket::route::{BoxFuture, Outcome};
use rocket::{Data, Request, Route};

fn echo_path<'r>(req: &'r Request<'_>, _data: Data<'r>) -> BoxFuture<'r> {
    let path = req.uri().path().as_str().to_string();
    Box::pin(std::future::ready(Outcome::from(req, path)))
}

#[test]
fn concurrent_invocations_get_their_own_responses() {
    let runtime = tokio::runtime::Runtime::new().unwrap();
    runtime.block_on(async {
        let rocket = rocket::build().mount("/", vec![Route::new(Method::Get, "/<path..>", echo_path)]);
        let client = Arc::new(Client::untracked(rocket).await.unwrap());
        let mut tasks = Vec::new();
        for i in 0..32 {
            let client = client.clone();
            tasks.push(tokio::spawn(async move {
                let path = format!("/items/{i}");
                let event = InvocationEvent {
                    method: Some("GET".to_string()),
                    path: Some(path.clone()),
                    headers: vec![],
                    body: None,
                    body_is_base64: false,
                };
                let request = translate(&event).ok().unwrap();
                let response = client.req(Method::Get, request.path.clone()).dispatch().await;
                let status = response.status().code;
                let body = response.into_bytes().await.unwrap_or_default();
                (path, build_response(ResponseDescriptor { status, headers: vec![], body }))
            }));
        }
        for task in tasks {
            let (path, response) = task.await.unwrap();
            assert_eq!(response.status_code, 200);
            assert_eq!(response.body, path);
            assert!(!response.is_base64_encoded);
        }
    });
}
