use vstd::prelude::*;

use der::{Decode, Encode, Tagged};

verus! {

#[verifier::external_type_specification]
#[verifier::external_body]
pub struct ExDerError(der::Error);

/// Why the signed container could not be unwrapped.
#[derive(Clone, Copy, Debug, PartialEq, Eq, Structural)]
pub enum UnwrapError {
    /// The bytes are not the DER structure that was expected.
    Malformed,
    /// The outer content type is not signed data.
    UnexpectedContentType,
    /// The signed content is not plain data.
    UnexpectedInnerType,
    /// The signed data carries no content.
    MissingContent,
    /// The content is not an octet string.
    UnexpectedTag,
}

/// Identifier octet of a universal, primitive OCTET STRING.
pub const OCTET_STRING_TAG: u8 = 4;

/// Dotted form of the CMS content type of signed data.
pub open spec fn signed_data_oid() -> Seq<char> {
    "1.2.840.113549.1.7.2"@
}

/// Dotted form of the CMS content type of plain data.
pub open spec fn data_oid() -> Seq<char> {
    "1.2.840.113549.1.7.1"@
}

/// The content type (dotted object identifier) and the DER encoding of the content
/// of the CMS ContentInfo that `b` starts with; `None` where none can be read.
pub uninterp spec fn content_info_fields(b: Seq<u8>) -> Option<(Seq<char>, Seq<u8>)>;

/// The encapsulated content type (dotted object identifier) and the encapsulated
/// content, as its identifier octet and value bytes, of the CMS SignedData that `b`
/// encodes; `None` where `b` is not such an encoding.
pub uninterp spec fn signed_data_fields(b: Seq<u8>) -> Option<(Seq<char>, Option<(u8, Seq<u8>)>)>;

pub open spec fn econtent_view(e: Option<(u8, Vec<u8>)>) -> Option<(u8, Seq<u8>)> {
    match e {
        Some((tag, value)) => Some((tag, value@)),
        None => None,
    }
}

pub open spec fn bytes_result_view(r: Result<Vec<u8>, UnwrapError>) -> Result<Seq<u8>, UnwrapError> {
    match r {
        Ok(v) => Ok(v@),
        Err(e) => Err(e),
    }
}

/// Relies on `oid_registry::OID_PKCS7_ID_SIGNED_DATA` and its `Display`, which
/// writes the arcs in dotted form.
#[verifier::external_body]
fn signed_data_oid_text() -> (r: String)
    ensures
        r@ == signed_data_oid(),
{
    oid_registry::OID_PKCS7_ID_SIGNED_DATA.to_string()
}

/// Relies on `oid_registry::OID_PKCS7_ID_DATA` and its `Display`, which writes the
/// arcs in dotted form.
#[verifier::external_body]
fn data_oid_text() -> (r: String)
    ensures
        r@ == data_oid(),
{
    oid_registry::OID_PKCS7_ID_DATA.to_string()
}

/// Relies on `cms::content_info::ContentInfo`'s DER decoding from the start of `b`
/// (bytes after it are left unread), on `ObjectIdentifier`'s dotted `Display`, and
/// on `der::Any`'s re-encoding of the content.
#[verifier::external_body]
fn read_content_info(b: &[u8]) -> (r: Result<(String, Vec<u8>), der::Error>)
    ensures
        match r {
            Ok((t, c)) => content_info_fields(b@) == Some((t@, c@)),
            Err(_) => content_info_fields(b@) is None,
        },
{
    let mut reader = der::SliceReader::new(b)?;
    let info = cms::content_info::ContentInfo::decode(&mut reader)?;
    Ok((info.content_type.to_string(), info.content.to_der()?))
}

/// Relies on `cms::signed_data::SignedData`'s DER decoding of the whole of `b`, and
/// hands back its encapsulated content type in dotted form and the identifier octet
/// and value bytes of its content.
#[verifier::external_body]
fn read_signed_data(b: &[u8]) -> (r: Result<(String, Option<(u8, Vec<u8>)>), der::Error>)
    ensures
        match r {
            Ok((t, e)) => signed_data_fields(b@) == Some((t@, econtent_view(e))),
            Err(_) => signed_data_fields(b@) is None,
        },
{
    let info = cms::signed_data::SignedData::from_der(b)?.encap_content_info;
    Ok((info.econtent_type.to_string(), info.econtent.map(|c| (u8::from(c.tag()), c.value().to_vec()))))
}

/// What is left to check once the signed data has been read.
pub open spec fn extract_spec(inner_type: Seq<char>, econtent: Option<(u8, Seq<u8>)>) -> Result<
    Seq<u8>,
    UnwrapError,
> {
    if inner_type != data_oid() {
        Err(UnwrapError::UnexpectedInnerType)
    } else {
        match econtent {
            None => Err(UnwrapError::MissingContent),
            Some((tag, value)) => if tag != OCTET_STRING_TAG {
                Err(UnwrapError::UnexpectedTag)
            } else {
                Ok(value)
            },
        }
    }
}

/// The payload that a signed container holds, or why there is none.
pub open spec fn unwrap_spec(b: Seq<u8>) -> Result<Seq<u8>, UnwrapError> {
    match content_info_fields(b) {
        None => Err(UnwrapError::Malformed),
        Some((content_type, content)) => if content_type != signed_data_oid() {
            Err(UnwrapError::UnexpectedContentType)
        } else {
            match signed_data_fields(content) {
                None => Err(UnwrapError::Malformed),
                Some((inner_type, econtent)) => extract_spec(inner_type, econtent),
            }
        },
    }
}

/// Accepts the outer content type of signed data only.
pub fn check_content_type(content_type: &String) -> (r: Result<(), UnwrapError>)
    ensures
        r is Ok <==> content_type@ == signed_data_oid(),
        r is Err ==> r == Err::<(), UnwrapError>(UnwrapError::UnexpectedContentType),
{
    let expected = signed_data_oid_text();
    if *content_type == expected {
        Ok(())
    } else {
        Err(UnwrapError::UnexpectedContentType)
    }
}

/// Takes the payload out of the encapsulated content of signed data: its type must
/// be plain data, and it must be present as an octet string.
pub fn extract_content(inner_type: &String, econtent: Option<(u8, Vec<u8>)>) -> (r: Result<
    Vec<u8>,
    UnwrapError,
>)
    ensures
        bytes_result_view(r) == extract_spec(inner_type@, econtent_view(econtent)),
{
    let expected = data_oid_text();
    if *inner_type != expected {
        return Err(UnwrapError::UnexpectedInnerType);
    }
    match econtent {
        None => Err(UnwrapError::MissingContent),
        Some((tag, value)) => {
            if tag != OCTET_STRING_TAG {
                Err(UnwrapError::UnexpectedTag)
            } else {
                Ok(value)
            }
        },
    }
}

/// Unwraps a signed container: the payload bytes it carries. The signature is
/// neither checked nor looked at.
pub fn unwrap_container(bytes: &[u8]) -> (r: Result<Vec<u8>, UnwrapError>)
    ensures
        bytes_result_view(r) == unwrap_spec(bytes@),
{
    let (content_type, content) = match read_content_info(bytes) {
        Ok(fields) => fields,
        Err(_) => {
            return Err(UnwrapError::Malformed);
        },
    };
    if let Err(e) = check_content_type(&content_type) {
        return Err(e);
    }
    match read_signed_data(content.as_slice()) {
        Ok((inner_type, econtent)) => extract_content(&inner_type, econtent),
        Err(_) => Err(UnwrapError::Malformed),
    }
}

} // verus!
