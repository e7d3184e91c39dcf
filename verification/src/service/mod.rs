pub mod http_request;
