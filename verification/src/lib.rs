//! A single handshake with a remote node over plain TCP, TLS, WebSocket or
//! secure WebSocket: the request that is sent, the steps of the exchange, the
//! body that is taken out of the response, and the error that a failure maps to.

pub mod solana;
