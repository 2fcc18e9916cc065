//! An image fetched from the image service and handed on as PNG.

use vstd::prelude::*;
use vstd::string::*;

verus! {

#[verifier::external_type_specification]
#[verifier::external_body]
pub struct ExDynamicImage(image::DynamicImage);

/// `image::load_from_memory`: the picture that the bytes hold, in whatever
/// format they are recognised as. Nothing is claimed of the picture, nor of
/// which bytes are recognised: that also depends on the formats made known
/// to the process.
#[verifier::external_body]
fn decode(bytes: &[u8]) -> Option<image::DynamicImage> {
    image::load_from_memory(bytes).ok()
}

/// `DynamicImage::write_to` with the PNG format, into a buffer in memory.
/// Nothing is claimed of the bytes.
#[verifier::external_body]
fn encode_png(picture: &image::DynamicImage) -> Option<Vec<u8>> {
    let mut buffer = std::io::Cursor::new(Vec::new());
    match picture.write_to(&mut buffer, image::ImageFormat::Png) {
        Ok(()) => Some(buffer.into_inner()),
        Err(_) => None,
    }
}

/// What the proxy answers.
#[derive(Clone, Debug, PartialEq, Eq)]
pub struct ProxyReply {
    pub status: u16,
    pub content_type: Option<String>,
    pub body: Vec<u8>,
}

pub struct ProxyReplyView {
    pub status: u16,
    pub content_type: Option<Seq<char>>,
    pub body: Seq<u8>,
}

impl View for ProxyReply {
    type V = ProxyReplyView;

    open spec fn view(&self) -> ProxyReplyView {
        ProxyReplyView {
            status: self.status,
            content_type: self.content_type.deep_view(),
            body: self.body@,
        }
    }
}

/// The answer for an image that could not be fetched or read.
pub open spec fn refusal() -> ProxyReplyView {
    ProxyReplyView {
        status: 400,
        content_type: None,
        body: vstd::utf8::encode_utf8("Invalid or missing image"@),
    }
}

/// The answer that hands on a PNG, or the refusal where there is none.
pub open spec fn reply_of(png: Option<Seq<u8>>) -> ProxyReplyView {
    match png {
        Some(body) => ProxyReplyView { status: 200, content_type: Some("image/png"@), body },
        None => refusal(),
    }
}

/// The answer that hands on a PNG, or the refusal where there is none.
pub fn reply_with(png: Option<Vec<u8>>) -> (reply: ProxyReply)
    ensures
        reply@ == reply_of(
            match png {
                Some(body) => Some(body@),
                None => None,
            },
        ),
{
    match png {
        Some(body) => ProxyReply {
            status: 200,
            content_type: Some(String::from_str("image/png")),
            body,
        },
        None => ProxyReply {
            status: 400,
            content_type: None,
            body: "Invalid or missing image".as_bytes_vec(),
        },
    }
}

/// The answer to a request for an image, given the bytes that the image
/// service sent, if it sent any with success. Where there are no bytes the
/// answer is the refusal. Where there are, it is for the picture library to
/// say whether they hold a picture and what its PNG is: the answer hands on
/// a PNG, as `reply_with` says, or is the refusal.
pub fn proxy_reply(fetched: Option<&[u8]>) -> (reply: ProxyReply)
    ensures
        fetched is None ==> reply@ == refusal(),
        reply@ == refusal() || (reply.status == 200 && reply.content_type.deep_view() == Some(
            "image/png"@,
        )),
{
    let png = match fetched {
        Some(bytes) => match decode(bytes) {
            Some(picture) => encode_png(&picture),
            None => None,
        },
        None => None,
    };
    reply_with(png)
}

} // verus!
