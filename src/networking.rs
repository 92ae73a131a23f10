//! Networking records: requests, responses, DNS choices, speed tests and tunnels.
pub mod client;
pub mod dns;
pub mod request;
pub mod response;
pub mod speedtest;
pub mod vpn;
