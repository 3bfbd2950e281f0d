//! The parts of an SDP session description that the server reads: for each
//! media section its media type, its port and its attributes.

use vstd::prelude::*;
use crate::text::str_equals;

verus! {

#[verifier::external_type_specification]
#[verifier::external_body]
pub struct ExSdpError(webrtc::sdp::Error);

/// An `a=<key>[:<value>]` line of a media section.
#[derive(Debug)]
pub struct SdpAttribute {
    pub key: String,
    pub value: Option<String>,
}

/// An `m=` section: the media type, the port and the attribute lines.
#[derive(Debug)]
pub struct MediaSection {
    pub media: String,
    pub port: isize,
    pub attributes: Vec<SdpAttribute>,
}

/// The media sections of a session description, in order.
#[derive(Debug)]
pub struct SessionSdp {
    pub media_descriptions: Vec<MediaSection>,
}

/// An attribute as key and optional value.
pub type AttributeView = (Seq<char>, Option<Seq<char>>);

/// A media section as media type, port and attributes.
pub type MediaView = (Seq<char>, isize, Seq<AttributeView>);

impl View for SdpAttribute {
    type V = AttributeView;

    open spec fn view(&self) -> AttributeView {
        (self.key@, match self.value {
            Some(v) => Some(v@),
            None => None,
        })
    }
}

impl View for MediaSection {
    type V = MediaView;

    open spec fn view(&self) -> MediaView {
        (self.media@, self.port, self.attributes@.map_values(|a: SdpAttribute| a@))
    }
}

impl View for SessionSdp {
    type V = Seq<MediaView>;

    open spec fn view(&self) -> Seq<MediaView> {
        self.media_descriptions@.map_values(|m: MediaSection| m@)
    }
}

// The media sections that the SDP parser reads from a text, or `None` where it refuses the text.
pub uninterp spec fn sdp_unmarshal(text: Seq<char>) -> Option<Seq<MediaView>>;

/// Parses an SDP text with `sdp::SessionDescription::unmarshal` and keeps,
/// for each media section, its media type, port and attributes. Whether the
/// parser accepts a text, and what it reads from it, is named
/// `sdp_unmarshal`: the SDP grammar is not stated here.
#[verifier::external_body]
pub(crate) fn parse_session_description(text: &str) -> (res: Result<SessionSdp, webrtc::sdp::Error>)
    ensures
        res is Ok <==> sdp_unmarshal(text@) is Some,
        res matches Ok(s) ==> sdp_unmarshal(text@) == Some(s@),
{
    let d = webrtc::sdp::SessionDescription::unmarshal(&mut std::io::Cursor::new(text.as_bytes()))?;
    Ok(SessionSdp {
        media_descriptions: d.media_descriptions.iter().map(|m| MediaSection {
            media: m.media_name.media.clone(),
            port: m.media_name.port.value,
            attributes: m.attributes.iter().map(|a| SdpAttribute { key: a.key.clone(), value: a.value.clone() }).collect(),
        }).collect(),
    })
}

/// Whether some attribute has the given key.
pub open spec fn has_key(attributes: Seq<AttributeView>, key: Seq<char>) -> bool {
    exists|i: int| 0 <= i < attributes.len() && (#[trigger] attributes[i]).0 == key
}

impl SdpAttribute {
    /// A copy of the attribute.
    pub fn duplicate(&self) -> (res: SdpAttribute)
        ensures
            res@ == self@,
    {
        SdpAttribute {
            key: self.key.clone(),
            value: match &self.value {
                Some(v) => Some(v.clone()),
                None => None,
            },
        }
    }
}

impl MediaSection {
    /// Whether the section has an attribute line with the given key.
    pub fn has_attribute(&self, key: &str) -> (res: bool)
        ensures
            res == has_key(self@.2, key@),
    {
        let mut i: usize = 0;
        while i < self.attributes.len()
            invariant
                i <= self.attributes@.len(),
                forall|j: int| 0 <= j < i ==> self@.2[j].0 != key@,
            decreases self.attributes@.len() - i,
        {
            if str_equals(self.attributes[i].key.as_str(), key) {
                assert(self@.2[i as int].0 == key@);
                return true;
            }
            i = i + 1;
        }
        proof {
            assert forall|j: int| 0 <= j < self@.2.len() implies #[trigger] self@.2[j].0 != key@ by {
            }
        }
        false
    }

    /// A copy of the section.
    pub fn duplicate(&self) -> (res: MediaSection)
        ensures
            res@ == self@,
    {
        let mut attributes: Vec<SdpAttribute> = Vec::new();
        let mut i: usize = 0;
        while i < self.attributes.len()
            invariant
                i <= self.attributes@.len(),
                attributes@.len() == i,
                forall|j: int| 0 <= j < i ==> #[trigger] attributes@[j]@ == self.attributes@[j]@,
            decreases self.attributes@.len() - i,
        {
            attributes.push(self.attributes[i].duplicate());
            i = i + 1;
        }
        let res = MediaSection { media: self.media.clone(), port: self.port, attributes };
        assert(res@.2 =~= self@.2);
        res
    }
}

} // verus!
