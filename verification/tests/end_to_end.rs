use http_body_util::{BodyExt, Empty};
use hyper::body::Bytes;
use hyper_util::rt::TokioIo;
use tokio::io::{AsyncReadExt, AsyncWriteExt, DuplexStream};
use torhttp::dispatch::{begin_dispatch, dispatch_step, DispatchAction, DispatchEvent, DispatchState};
use torhttp::headers::normalize_headers;
use torhttp::uri::UriParts;

/// A mock transport endpoint: an in-memory stream whose far side answers
/// one HTTP/1.1 request with the canned bytes, and hands back the request
/// text it saw.
async fn canned_server(mut server_io: DuplexStream, response: &'static [u8]) -> String {
    let mut buf = vec![0u8; 4096];
    let mut total = 0;
    loop {
        let n = server_io.read(&mut buf[total..]).await.unwrap();
        assert!(n > 0, "request never completed");
        total += n;
        if buf[..total].windows(4).any(|w| w == b"\r\n\r\n") {
            break;
        }
    }
    server_io.write_all(response).await.unwrap();
    // Keep the stream open until the client is done reading.
    let _ = server_io.read(&mut buf).await;
    String::from_utf8_lossy(&buf[..total]).to_string()
}

/// Drives one full dispatch over the given in-memory stream, following the
/// actions the library decides on. A requested TLS upgrade is performed by
/// the identity upgrader (a mock that always succeeds).
async fn drive_get(uri_text: &str, parts: UriParts, client_io: DuplexStream) -> (u16, Bytes) {
    let (mut state, mut action) = begin_dispatch(&parts).unwrap();
    loop {
        match action {
            DispatchAction::Connect { .. } => {
                // The mock transport is already connected.
                let (s, a) = dispatch_step(state, DispatchEvent::ConnectOk);
                state = s;
                action = a;
            },
            DispatchAction::UpgradeTls { .. } => {
                let (s, a) = dispatch_step(state, DispatchEvent::TlsOk);
                state = s;
                action = a;
            },
            DispatchAction::Handshake => break,
            _ => panic!("unexpected action before the handshake"),
        }
    }
    let (mut sender, conn) =
        hyper::client::conn::http1::handshake::<_, Empty<Bytes>>(TokioIo::new(client_io))
            .await
            .unwrap();
    tokio::spawn(async move {
        let _ = conn.await;
    });
    let (state, action) = dispatch_step(state, DispatchEvent::HandshakeOk);
    assert!(matches!(action, DispatchAction::SendRequest));

    let headers = normalize_headers(Vec::new(), &parts.authority).unwrap();
    let mut builder = hyper::Request::builder().method(hyper::Method::GET).uri(uri_text);
    for h in &headers {
        builder = builder.header(h.name.clone(), h.value.clone());
    }
    let req = builder.body(Empty::<Bytes>::new()).unwrap();
    let resp = sender.send_request(req).await.unwrap();
    let status = resp.status().as_u16();

    let (state, action) = dispatch_step(state, DispatchEvent::SendOk { status });
    match action {
        DispatchAction::Deliver { status: s } => assert_eq!(s, status),
        _ => panic!("expected a delivery"),
    }
    assert!(matches!(state, DispatchState::Complete { .. }));

    let body = resp.collect().await.unwrap().to_bytes();
    (status, body)
}

#[test]
fn plain_get_against_canned_200_returns_ok_body() {
    let rt = tokio::runtime::Runtime::new().unwrap();
    rt.block_on(async {
        let parts = UriParts {
            host: Some(b"example.test".to_vec()),
            port: None,
            secure: false,
            authority: b"example.test".to_vec(),
        };
        let (client_io, server_io) = tokio::io::duplex(4096);
        let server = tokio::spawn(canned_server(
            server_io,
            b"HTTP/1.1 200 OK\r\ncontent-length: 2\r\n\r\nok",
        ));
        let (status, body) = drive_get("http://example.test/", parts, client_io).await;
        assert_eq!(status, 200);
        assert_eq!(&body[..], b"ok");
        let request_text = server.await.unwrap();
        // Exactly one Host header, synthesized from the authority.
        assert_eq!(request_text.matches("host: example.test\r\n").count(), 1);
    });
}

#[test]
fn secure_get_with_mock_upgrader_returns_404_without_error() {
    let rt = tokio::runtime::Runtime::new().unwrap();
    rt.block_on(async {
        let parts = UriParts {
            host: Some(b"example.test".to_vec()),
            port: None,
            secure: true,
            authority: b"example.test".to_vec(),
        };
        let (client_io, server_io) = tokio::io::duplex(4096);
        let server = tokio::spawn(canned_server(
            server_io,
            b"HTTP/1.1 404 Not Found\r\ncontent-length: 0\r\n\r\n",
        ));
        let (status, body) = drive_get("https://example.test/", parts, client_io).await;
        assert_eq!(status, 404);
        assert!(body.is_empty());
        server.await.unwrap();
    });
}
