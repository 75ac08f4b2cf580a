//! The response that lists available models.
use vstd::prelude::*;
use crate::decode::{
    count_member, count_of, decodable_at, decodes_at, flag_member, flag_of, list_decodable,
    list_decodes, list_member, optional_text_member, optional_text_of, text_member, text_of,
    value_member, view_of_text, Decode,
};
use crate::error::Error;
use crate::json::{Json, member};
use crate::model::object::Object;

verus! {

/// The list of available models.
#[derive(Debug)]
pub struct Response {
    pub object: Object,
    pub data: Vec<Model>,
}

impl Decode for Response {
    open spec fn decodable(j: Json) -> bool {
        &&& decodable_at::<Object>(member(j, "object"@))
        &&& list_decodable::<Model>(member(j, "data"@))
    }

    open spec fn decodes_from(self, j: Json) -> bool {
        &&& decodes_at(member(j, "object"@), self.object)
        &&& list_decodes(member(j, "data"@), self.data@)
    }

    fn from_json(j: &Json) -> (r: Result<Response, Error>) {
        let object = value_member(j, "object")?;
        let data = list_member(j, "data")?;
        Ok(Response { object, data })
    }
}

/// One available model.
#[derive(Debug)]
pub struct Model {
    pub id: String,
    pub object: Object,
    pub created: usize,
    pub owned_by: String,
    pub permission: Vec<Permission>,
    pub root: String,
    pub parent: Option<String>,
}

impl Decode for Model {
    open spec fn decodable(j: Json) -> bool {
        &&& text_of(member(j, "id"@)) is Some
        &&& decodable_at::<Object>(member(j, "object"@))
        &&& count_of(member(j, "created"@)) is Some
        &&& text_of(member(j, "owned_by"@)) is Some
        &&& list_decodable::<Permission>(member(j, "permission"@))
        &&& text_of(member(j, "root"@)) is Some
        &&& optional_text_of(member(j, "parent"@)) is Some
    }

    open spec fn decodes_from(self, j: Json) -> bool {
        &&& text_of(member(j, "id"@)) == Some(self.id@)
        &&& decodes_at(member(j, "object"@), self.object)
        &&& count_of(member(j, "created"@)) == Some(self.created)
        &&& text_of(member(j, "owned_by"@)) == Some(self.owned_by@)
        &&& list_decodes(member(j, "permission"@), self.permission@)
        &&& text_of(member(j, "root"@)) == Some(self.root@)
        &&& optional_text_of(member(j, "parent"@)) == Some(view_of_text(self.parent))
    }

    fn from_json(j: &Json) -> (r: Result<Model, Error>) {
        let id = text_member(j, "id")?;
        let object = value_member(j, "object")?;
        let created = count_member(j, "created")?;
        let owned_by = text_member(j, "owned_by")?;
        let permission = list_member(j, "permission")?;
        let root = text_member(j, "root")?;
        let parent = optional_text_member(j, "parent")?;
        Ok(Model { id, object, created, owned_by, permission, root, parent })
    }
}

/// What a model's owner permits.
#[derive(Debug)]
pub struct Permission {
    pub id: String,
    pub object: Object,
    pub created: usize,
    pub allow_create_engine: bool,
    pub allow_sampling: bool,
    pub allow_logprobs: bool,
    pub allow_search_indices: bool,
    pub allow_view: bool,
    pub allow_fine_tuning: bool,
    pub organization: String,
    pub group: Option<String>,
    pub is_blocking: bool,
}

impl Decode for Permission {
    open spec fn decodable(j: Json) -> bool {
        &&& text_of(member(j, "id"@)) is Some
        &&& decodable_at::<Object>(member(j, "object"@))
        &&& count_of(member(j, "created"@)) is Some
        &&& flag_of(member(j, "allow_create_engine"@)) is Some
        &&& flag_of(member(j, "allow_sampling"@)) is Some
        &&& flag_of(member(j, "allow_logprobs"@)) is Some
        &&& flag_of(member(j, "allow_search_indices"@)) is Some
        &&& flag_of(member(j, "allow_view"@)) is Some
        &&& flag_of(member(j, "allow_fine_tuning"@)) is Some
        &&& text_of(member(j, "organization"@)) is Some
        &&& optional_text_of(member(j, "group"@)) is Some
        &&& flag_of(member(j, "is_blocking"@)) is Some
    }

    open spec fn decodes_from(self, j: Json) -> bool {
        &&& text_of(member(j, "id"@)) == Some(self.id@)
        &&& decodes_at(member(j, "object"@), self.object)
        &&& count_of(member(j, "created"@)) == Some(self.created)
        &&& flag_of(member(j, "allow_create_engine"@)) == Some(self.allow_create_engine)
        &&& flag_of(member(j, "allow_sampling"@)) == Some(self.allow_sampling)
        &&& flag_of(member(j, "allow_logprobs"@)) == Some(self.allow_logprobs)
        &&& flag_of(member(j, "allow_search_indices"@)) == Some(self.allow_search_indices)
        &&& flag_of(member(j, "allow_view"@)) == Some(self.allow_view)
        &&& flag_of(member(j, "allow_fine_tuning"@)) == Some(self.allow_fine_tuning)
        &&& text_of(member(j, "organization"@)) == Some(self.organization@)
        &&& optional_text_of(member(j, "group"@)) == Some(view_of_text(self.group))
        &&& flag_of(member(j, "is_blocking"@)) == Some(self.is_blocking)
    }

    fn from_json(j: &Json) -> (r: Result<Permission, Error>) {
        let id = text_member(j, "id")?;
        let object = value_member(j, "object")?;
        let created = count_member(j, "created")?;
        let allow_create_engine = flag_member(j, "allow_create_engine")?;
        let allow_sampling = flag_member(j, "allow_sampling")?;
        let allow_logprobs = flag_member(j, "allow_logprobs")?;
        let allow_search_indices = flag_member(j, "allow_search_indices")?;
        let allow_view = flag_member(j, "allow_view")?;
        let allow_fine_tuning = flag_member(j, "allow_fine_tuning")?;
        let organization = text_member(j, "organization")?;
        let group = optional_text_member(j, "group")?;
        let is_blocking = flag_member(j, "is_blocking")?;
        Ok(Permission { id, object, created, allow_create_engine, allow_sampling, allow_logprobs, allow_search_indices, allow_view, allow_fine_tuning, organization, group, is_blocking })
    }
}

} // verus!
