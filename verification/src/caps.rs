//! Media capability descriptors: the RTP ingest configuration that the graph
//! is built for, and the classification of capability descriptors announced
//! at negotiation time.

use vstd::prelude::*;
use crate::text::{decimal_string, spec_decimal_chars};

verus! {

/// The stream encodings the ingest accepts.
#[derive(Clone, Copy, PartialEq, Eq, Structural, Debug)]
pub enum Encoding {
    H264,
    Jpeg,
}

impl Encoding {
    /// The RTP `encoding-name` for this encoding.
    pub fn rtp_name(&self) -> (r: &'static str)
        ensures
            *self == Encoding::H264 ==> r@ == "H264"@,
            *self == Encoding::Jpeg ==> r@ == "JPEG"@,
    {
        match self {
            Encoding::H264 => "H264",
            Encoding::Jpeg => "JPEG",
        }
    }

    /// The RTP payload-type number this encoding is accepted with.
    pub open spec fn spec_payload_type(self) -> u8 {
        match self {
            Encoding::H264 => 96,
            Encoding::Jpeg => 26,
        }
    }
}

/// The transport parameters the media graph is built for: a listening port
/// and the expected RTP encoding and payload-type number.
#[derive(Clone, Copy, PartialEq, Eq, Structural, Debug)]
pub struct RtpConfig {
    pub port: u16,
    pub encoding: Encoding,
    pub payload_type: u8,
}

impl RtpConfig {
    /// An (encoding, payload-type) pair is accepted exactly when the payload
    /// type is the one the encoding is carried under: H264 on 96, JPEG on 26.
    /// Any other pair is incompatible with the depayloader and is rejected
    /// when the graph is built.
    pub open spec fn accepted(self) -> bool {
        self.payload_type == self.encoding.spec_payload_type()
    }

    /// Whether this configuration is accepted.
    pub fn is_accepted(&self) -> (r: bool)
        ensures
            r == self.accepted(),
    {
        match self.encoding {
            Encoding::H264 => self.payload_type == 96,
            Encoding::Jpeg => self.payload_type == 26,
        }
    }

    /// The capability string of the configured stream.
    pub open spec fn spec_caps_string(self) -> Seq<char> {
        "application/x-rtp,media=video,encoding-name="@ + (match self.encoding {
            Encoding::H264 => "H264"@,
            Encoding::Jpeg => "JPEG"@,
        }) + ",payload="@ + spec_decimal_chars(self.payload_type as nat)
    }

    /// Render the capability string handed to the source stage, for example
    /// `application/x-rtp,media=video,encoding-name=H264,payload=96`.
    pub fn caps_string(&self) -> (r: String)
        ensures
            r@ == self.spec_caps_string(),
    {
        let mut s = String::from_str("application/x-rtp,media=video,encoding-name=");
        s.append(self.encoding.rtp_name());
        s.append(",payload=");
        let pt = decimal_string(self.payload_type as u64);
        s.append(pt.as_str());
        s
    }
}

/// A capability descriptor announced for a dynamic pad: the media-type name
/// negotiated for the stream, such as `video/x-raw` or `audio/x-raw`.
pub struct CapsDescriptor {
    pub media_type: String,
}

impl CapsDescriptor {
    pub fn new(media_type: String) -> (r: CapsDescriptor)
        ensures
            r.media_type@ == media_type@,
    {
        CapsDescriptor { media_type }
    }

    /// A descriptor is of the video class exactly when its media-type name
    /// starts with `video/`.
    pub open spec fn spec_is_video(self) -> bool {
        self.media_type@.len() >= 6 && self.media_type@.subrange(0, 6) == "video/"@
    }

    /// Whether this descriptor is of the video class.
    pub fn is_video(&self) -> (r: bool)
        ensures
            r == self.spec_is_video(),
    {
        let pat = "video/";
        proof {
            reveal_strlit("video/");
        }
        let name = self.media_type.as_str();
        let n = name.unicode_len();
        if n < 6 {
            proof {
                assert(!self.spec_is_video());
            }
            return false;
        }
        let mut i: usize = 0;
        while i < 6
            invariant
                0 <= i <= 6,
                6 <= name@.len(),
                name@ == self.media_type@,
                pat@ == "video/"@,
                pat@.len() == 6,
                forall|j: int| 0 <= j < i ==> name@[j] == pat@[j],
            decreases 6 - i,
        {
            if name.get_char(i) != pat.get_char(i) {
                proof {
                    assert(name@[i as int] != pat@[i as int]);
                    assert(self.media_type@.subrange(0, 6) != "video/"@) by {
                        assert(self.media_type@.subrange(0, 6)[i as int] != "video/"@[i as int]);
                    }
                }
                return false;
            }
            i += 1;
        }
        proof {
            assert(self.media_type@.subrange(0, 6) =~= "video/"@);
        }
        true
    }
}

} // verus!
