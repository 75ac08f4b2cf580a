//! The response that lists uploaded files.
use vstd::prelude::*;
use crate::decode::{
    count_member, count_of, decodable_at, decodes_at, list_decodable,
    list_decodes, list_member, text_member, text_of,
    value_member, Decode,
};
use crate::error::Error;
use crate::json::{Json, member};
use crate::model::object::Object;

verus! {

/// The list of uploaded files.
#[derive(Debug)]
pub struct Response {
    pub data: Vec<File>,
    pub object: Object,
}

impl Decode for Response {
    open spec fn decodable(j: Json) -> bool {
        &&& list_decodable::<File>(member(j, "data"@))
        &&& decodable_at::<Object>(member(j, "object"@))
    }

    open spec fn decodes_from(self, j: Json) -> bool {
        &&& list_decodes(member(j, "data"@), self.data@)
        &&& decodes_at(member(j, "object"@), self.object)
    }

    fn from_json(j: &Json) -> (r: Result<Response, Error>) {
        let data = list_member(j, "data")?;
        let object = value_member(j, "object")?;
        Ok(Response { data, object })
    }
}

/// One uploaded file.
#[derive(Debug)]
pub struct File {
    pub id: String,
    pub object: Object,
    pub bytes: usize,
    pub created_at: usize,
    pub filename: String,
    pub purpose: String,
}

impl Decode for File {
    open spec fn decodable(j: Json) -> bool {
        &&& text_of(member(j, "id"@)) is Some
        &&& decodable_at::<Object>(member(j, "object"@))
        &&& count_of(member(j, "bytes"@)) is Some
        &&& count_of(member(j, "created_at"@)) is Some
        &&& text_of(member(j, "filename"@)) is Some
        &&& text_of(member(j, "purpose"@)) is Some
    }

    open spec fn decodes_from(self, j: Json) -> bool {
        &&& text_of(member(j, "id"@)) == Some(self.id@)
        &&& decodes_at(member(j, "object"@), self.object)
        &&& count_of(member(j, "bytes"@)) == Some(self.bytes)
        &&& count_of(member(j, "created_at"@)) == Some(self.created_at)
        &&& text_of(member(j, "filename"@)) == Some(self.filename@)
        &&& text_of(member(j, "purpose"@)) == Some(self.purpose@)
    }

    fn from_json(j: &Json) -> (r: Result<File, Error>) {
        let id = text_member(j, "id")?;
        let object = value_member(j, "object")?;
        let bytes = count_member(j, "bytes")?;
        let created_at = count_member(j, "created_at")?;
        let filename = text_member(j, "filename")?;
        let purpose = text_member(j, "purpose")?;
        Ok(File { id, object, bytes, created_at, filename, purpose })
    }
}

} // verus!
