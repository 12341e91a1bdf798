//! Authentication against the i-Ma'luum CAS portal, and the static
//! bearer-token check placed in front of every remote call.
//!
//! The library decides; its caller does the input and output. A login
//! attempt begins with [`auth::grpc::GRPCServer::login`], which refuses empty
//! credentials, and then runs as a [`auth::flow::LoginFlow`]: the caller
//! sends the request that the flow asks for with a client from
//! [`http::client::create_client_with_cookies`], made for this attempt
//! alone, and hands what came back to [`auth::flow::LoginFlow::step`], until
//! the flow asks to finish. [`auth::grpc::GRPCServer::respond`] turns the
//! result into the answer for the remote caller.
//!
//! Whether a remote call may proceed at all is decided by
//! [`middleware::check_auth`].

pub mod auth;
pub mod http;
pub mod middleware;
pub mod text;
