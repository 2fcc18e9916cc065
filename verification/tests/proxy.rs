use shop_catalog::proxy::{proxy_reply, reply_with};

fn one_pixel_png() -> Vec<u8> {
    vec![
        0x89, 0x50, 0x4e, 0x47, 0x0d, 0x0a, 0x1a, 0x0a, 0x00, 0x00, 0x00, 0x0d, 0x49, 0x48, 0x44, 0x52, 0x00, 0x00, 0x00, 0x01, 0x00, 0x00, 0x00, 0x01, 0x08, 0x06, 0x00, 0x00, 0x00, 0x1f, 0x15, 0xc4, 0x89, 0x00, 0x00, 0x00, 0x0d, 0x49, 0x44, 0x41, 0x54, 0x78, 0xda, 0x63, 0x64, 0x60, 0xf8, 0x5f, 0x0f, 0x00, 0x02, 0x87, 0x01, 0x80, 0xeb, 0x47, 0xba, 0x92, 0x00, 0x00, 0x00, 0x00, 0x49, 0x45, 0x4e, 0x44, 0xae, 0x42, 0x60, 0x82,
    ]
}

#[test]
fn a_picture_is_handed_on_as_png() {
    let reply = proxy_reply(Some(&one_pixel_png()));
    assert_eq!(reply.status, 200);
    assert_eq!(reply.content_type, Some("image/png".to_string()));
    assert_eq!(&reply.body[..8], &[0x89, b'P', b'N', b'G', 0x0d, 0x0a, 0x1a, 0x0a]);
    let again = proxy_reply(Some(&reply.body));
    assert_eq!(again.status, 200);
}

#[test]
fn what_is_no_picture_is_refused() {
    for fetched in [None, Some(&b"not a picture"[..]), Some(&b""[..])] {
        let reply = proxy_reply(fetched);
        assert_eq!(reply.status, 400);
        assert_eq!(reply.content_type, None);
        assert_eq!(reply.body, b"Invalid or missing image".to_vec());
    }
}

#[test]
fn the_reply_carries_the_png() {
    let reply = reply_with(Some(vec![1, 2, 3]));
    assert_eq!(reply.status, 200);
    assert_eq!(reply.content_type, Some("image/png".to_string()));
    assert_eq!(reply.body, vec![1, 2, 3]);
    assert_eq!(reply_with(None).status, 400);
}
