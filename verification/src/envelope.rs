use vstd::prelude::*;
use vstd::pervasive::unreached;
use crate::json::{
    flag_member, is_flat, new_object, no_members, object_text, parse_object,
    parsed_members, put_flag, put_text, text_member, write_object, Member,
};

verus! {

/// Why bytes are not the envelope of a message.
#[derive(Debug, Clone, Copy, PartialEq, Eq, Structural)]
pub enum DecodeError {
    /// The bytes are not the JSON text of one object.
    Syntax,
    /// The object lacks a field of the message, or holds it with another type.
    Shape,
}

/// Identity metadata a module reports once, when it is loaded.
#[derive(Debug, PartialEq, Eq)]
pub struct PluginInfo {
    pub name: String,
    pub version: String,
    pub author: String,
}

/// A command for a module, with its argument.
#[derive(Debug, PartialEq, Eq)]
pub struct PluginRequest {
    pub command: String,
    pub data: String,
}

/// What a module answers to one request.
#[derive(Debug, PartialEq, Eq)]
pub struct PluginResponse {
    pub success: bool,
    pub data: String,
}

/// Mathematical value of a [`PluginInfo`].
pub struct InfoView {
    pub name: Seq<char>,
    pub version: Seq<char>,
    pub author: Seq<char>,
}

/// Mathematical value of a [`PluginRequest`].
pub struct RequestView {
    pub command: Seq<char>,
    pub data: Seq<char>,
}

/// Mathematical value of a [`PluginResponse`].
pub struct ResponseView {
    pub success: bool,
    pub data: Seq<char>,
}

impl Clone for PluginInfo {
    fn clone(&self) -> (copy: PluginInfo)
        ensures
            copy@ == self@,
    {
        PluginInfo {
            name: self.name.clone(),
            version: self.version.clone(),
            author: self.author.clone(),
        }
    }
}

impl Clone for PluginRequest {
    fn clone(&self) -> (copy: PluginRequest)
        ensures
            copy@ == self@,
    {
        PluginRequest { command: self.command.clone(), data: self.data.clone() }
    }
}

impl Clone for PluginResponse {
    fn clone(&self) -> (copy: PluginResponse)
        ensures
            copy@ == self@,
    {
        PluginResponse { success: self.success, data: self.data.clone() }
    }
}

impl View for PluginInfo {
    type V = InfoView;

    open spec fn view(&self) -> InfoView {
        InfoView { name: self.name@, version: self.version@, author: self.author@ }
    }
}

impl View for PluginRequest {
    type V = RequestView;

    open spec fn view(&self) -> RequestView {
        RequestView { command: self.command@, data: self.data@ }
    }
}

impl View for PluginResponse {
    type V = ResponseView;

    open spec fn view(&self) -> ResponseView {
        ResponseView { success: self.success, data: self.data@ }
    }
}

/// The string under `key`, if the members hold one there.
pub open spec fn text_at(members: Map<Seq<char>, Member>, key: Seq<char>) -> Option<Seq<char>> {
    if members.contains_key(key) {
        match members[key] {
            Member::Text(text) => Some(text),
            _ => None,
        }
    } else {
        None
    }
}

/// The boolean under `key`, if the members hold one there.
pub open spec fn flag_at(members: Map<Seq<char>, Member>, key: Seq<char>) -> Option<bool> {
    if members.contains_key(key) {
        match members[key] {
            Member::Flag(flag) => Some(flag),
            _ => None,
        }
    } else {
        None
    }
}

/// The members a descriptor is written with.
pub open spec fn info_members(info: InfoView) -> Map<Seq<char>, Member> {
    no_members().insert("name"@, Member::Text(info.name)).insert(
        "version"@,
        Member::Text(info.version),
    ).insert("author"@, Member::Text(info.author))
}

/// The members a request is written with.
pub open spec fn request_members(request: RequestView) -> Map<Seq<char>, Member> {
    no_members().insert("command"@, Member::Text(request.command)).insert(
        "data"@,
        Member::Text(request.data),
    )
}

/// The members a response is written with.
pub open spec fn response_members(response: ResponseView) -> Map<Seq<char>, Member> {
    no_members().insert("success"@, Member::Flag(response.success)).insert(
        "data"@,
        Member::Text(response.data),
    )
}

/// The descriptor that an object's members spell: its three fields must be
/// there as strings; other members are passed over.
pub open spec fn info_of(members: Map<Seq<char>, Member>) -> Option<InfoView> {
    match (text_at(members, "name"@), text_at(members, "version"@), text_at(members, "author"@)) {
        (Some(name), Some(version), Some(author)) => Some(InfoView { name, version, author }),
        _ => None,
    }
}

/// The request that an object's members spell.
pub open spec fn request_of(members: Map<Seq<char>, Member>) -> Option<RequestView> {
    match (text_at(members, "command"@), text_at(members, "data"@)) {
        (Some(command), Some(data)) => Some(RequestView { command, data }),
        _ => None,
    }
}

/// The response that an object's members spell.
pub open spec fn response_of(members: Map<Seq<char>, Member>) -> Option<ResponseView> {
    match (flag_at(members, "success"@), text_at(members, "data"@)) {
        (Some(success), Some(data)) => Some(ResponseView { success, data }),
        _ => None,
    }
}

/// The envelope of a descriptor.
pub open spec fn encoded_info(info: InfoView) -> Seq<u8> {
    object_text(info_members(info))
}

/// The envelope of a request.
pub open spec fn encoded_request(request: RequestView) -> Seq<u8> {
    object_text(request_members(request))
}

/// The envelope of a response.
pub open spec fn encoded_response(response: ResponseView) -> Seq<u8> {
    object_text(response_members(response))
}

/// What decoding `bytes` as a descriptor gives.
pub open spec fn decoded_info(bytes: Seq<u8>) -> Result<InfoView, DecodeError> {
    match parsed_members(bytes) {
        None => Err(DecodeError::Syntax),
        Some(members) => match info_of(members) {
            None => Err(DecodeError::Shape),
            Some(info) => Ok(info),
        },
    }
}

/// What decoding `bytes` as a request gives.
pub open spec fn decoded_request(bytes: Seq<u8>) -> Result<RequestView, DecodeError> {
    match parsed_members(bytes) {
        None => Err(DecodeError::Syntax),
        Some(members) => match request_of(members) {
            None => Err(DecodeError::Shape),
            Some(request) => Ok(request),
        },
    }
}

/// What decoding `bytes` as a response gives.
pub open spec fn decoded_response(bytes: Seq<u8>) -> Result<ResponseView, DecodeError> {
    match parsed_members(bytes) {
        None => Err(DecodeError::Syntax),
        Some(members) => match response_of(members) {
            None => Err(DecodeError::Shape),
            Some(response) => Ok(response),
        },
    }
}

/// The field names of the three messages differ from one another.
proof fn lemma_field_names_differ()
    ensures
        "name"@ != "version"@,
        "name"@ != "author"@,
        "version"@ != "author"@,
        "command"@ != "data"@,
        "success"@ != "data"@,
{
    reveal_strlit("name");
    reveal_strlit("version");
    reveal_strlit("author");
    reveal_strlit("command");
    reveal_strlit("data");
    reveal_strlit("success");
    assert("name"@.len() == 4 && "version"@.len() == 7 && "author"@.len() == 6);
    assert("command"@.len() == 7 && "success"@.len() == 7 && "data"@.len() == 4);
}

/// The members written for a descriptor are strings only, and spell it.
pub proof fn lemma_info_members_spell(info: InfoView)
    ensures
        is_flat(info_members(info)),
        info_of(info_members(info)) == Some(info),
{
    lemma_field_names_differ();
}

/// The members written for a request are strings only, and spell it.
pub proof fn lemma_request_members_spell(request: RequestView)
    ensures
        is_flat(request_members(request)),
        request_of(request_members(request)) == Some(request),
{
    lemma_field_names_differ();
}

/// The members written for a response are a boolean and a string, and spell it.
pub proof fn lemma_response_members_spell(response: ResponseView)
    ensures
        is_flat(response_members(response)),
        response_of(response_members(response)) == Some(response),
{
    lemma_field_names_differ();
}

impl PluginInfo {
    /// Writes the descriptor as an envelope. Decoding the envelope gives the
    /// descriptor back.
    pub fn encode(&self) -> (bytes: Vec<u8>)
        ensures
            bytes@ == encoded_info(self@),
            decoded_info(bytes@) == Ok::<InfoView, DecodeError>(self@),
    {
        let mut object = new_object();
        put_text(&mut object, "name", self.name.as_str());
        put_text(&mut object, "version", self.version.as_str());
        put_text(&mut object, "author", self.author.as_str());
        proof {
            lemma_info_members_spell(self@);
        }
        match write_object(&object) {
            Ok(bytes) => bytes,
            Err(_) => unreached(),
        }
    }

    /// Puts a descriptor together from what an object held under the three
    /// field names: all three must be there.
    pub fn from_fields(
        name: Option<String>,
        version: Option<String>,
        author: Option<String>,
    ) -> (built: Result<PluginInfo, DecodeError>)
        ensures
            built is Ok <==> name is Some && version is Some && author is Some,
            built matches Ok(info) ==> info.name == name->0 && info.version == version->0
                && info.author == author->0,
            built matches Err(error) ==> error == DecodeError::Shape,
    {
        match (name, version, author) {
            (Some(name), Some(version), Some(author)) => Ok(PluginInfo { name, version, author }),
            _ => Err(DecodeError::Shape),
        }
    }

    /// Reads a descriptor from an envelope: the JSON text of one object that
    /// holds the three fields as strings. Other members are passed over.
    pub fn decode(bytes: &[u8]) -> (decoded: Result<PluginInfo, DecodeError>)
        ensures
            decoded matches Ok(info) ==> decoded_info(bytes@) == Ok::<InfoView, DecodeError>(info@),
            decoded matches Err(error) ==> decoded_info(bytes@) == Err::<InfoView, DecodeError>(error),
    {
        let object = match parse_object(bytes) {
            Ok(object) => object,
            Err(_) => return Err(DecodeError::Syntax),
        };
        PluginInfo::from_fields(
            text_member(&object, "name"),
            text_member(&object, "version"),
            text_member(&object, "author"),
        )
    }
}

impl PluginRequest {
    /// Writes the request as an envelope. Decoding the envelope gives the
    /// request back.
    pub fn encode(&self) -> (bytes: Vec<u8>)
        ensures
            bytes@ == encoded_request(self@),
            decoded_request(bytes@) == Ok::<RequestView, DecodeError>(self@),
    {
        let mut object = new_object();
        put_text(&mut object, "command", self.command.as_str());
        put_text(&mut object, "data", self.data.as_str());
        proof {
            lemma_request_members_spell(self@);
        }
        match write_object(&object) {
            Ok(bytes) => bytes,
            Err(_) => unreached(),
        }
    }

    /// Puts a request together from what an object held under the two field
    /// names: both must be there.
    pub fn from_fields(command: Option<String>, data: Option<String>) -> (built: Result<
        PluginRequest,
        DecodeError,
    >)
        ensures
            built is Ok <==> command is Some && data is Some,
            built matches Ok(request) ==> request.command == command->0 && request.data == data->0,
            built matches Err(error) ==> error == DecodeError::Shape,
    {
        match (command, data) {
            (Some(command), Some(data)) => Ok(PluginRequest { command, data }),
            _ => Err(DecodeError::Shape),
        }
    }

    /// Reads a request from an envelope: the JSON text of one object that
    /// holds the two fields as strings. Other members are passed over.
    pub fn decode(bytes: &[u8]) -> (decoded: Result<PluginRequest, DecodeError>)
        ensures
            decoded matches Ok(request) ==> decoded_request(bytes@) == Ok::<RequestView, DecodeError>(request@),
            decoded matches Err(error) ==> decoded_request(bytes@) == Err::<RequestView, DecodeError>(error),
    {
        let object = match parse_object(bytes) {
            Ok(object) => object,
            Err(_) => return Err(DecodeError::Syntax),
        };
        PluginRequest::from_fields(text_member(&object, "command"), text_member(&object, "data"))
    }
}

impl PluginResponse {
    /// Writes the response as an envelope. Decoding the envelope gives the
    /// response back.
    pub fn encode(&self) -> (bytes: Vec<u8>)
        ensures
            bytes@ == encoded_response(self@),
            decoded_response(bytes@) == Ok::<ResponseView, DecodeError>(self@),
    {
        let mut object = new_object();
        put_flag(&mut object, "success", self.success);
        put_text(&mut object, "data", self.data.as_str());
        proof {
            lemma_response_members_spell(self@);
        }
        match write_object(&object) {
            Ok(bytes) => bytes,
            Err(_) => unreached(),
        }
    }

    /// Puts a response together from what an object held under the two field
    /// names: both must be there.
    pub fn from_fields(success: Option<bool>, data: Option<String>) -> (built: Result<
        PluginResponse,
        DecodeError,
    >)
        ensures
            built is Ok <==> success is Some && data is Some,
            built matches Ok(response) ==> response.success == success->0 && response.data
                == data->0,
            built matches Err(error) ==> error == DecodeError::Shape,
    {
        match (success, data) {
            (Some(success), Some(data)) => Ok(PluginResponse { success, data }),
            _ => Err(DecodeError::Shape),
        }
    }

    /// Reads a response from an envelope: the JSON text of one object that
    /// holds `success` as a boolean and `data` as a string. Other members are
    /// passed over.
    pub fn decode(bytes: &[u8]) -> (decoded: Result<PluginResponse, DecodeError>)
        ensures
            decoded matches Ok(response) ==> decoded_response(bytes@) == Ok::<
                ResponseView,
                DecodeError,
            >(response@),
            decoded matches Err(error) ==> decoded_response(bytes@) == Err::<
                ResponseView,
                DecodeError,
            >(error),
    {
        let object = match parse_object(bytes) {
            Ok(object) => object,
            Err(_) => return Err(DecodeError::Syntax),
        };
        PluginResponse::from_fields(flag_member(&object, "success"), text_member(&object, "data"))
    }

    /// A successful answer carrying `data`.
    pub fn succeeded(data: String) -> (response: PluginResponse)
        ensures
            response@ == (ResponseView { success: true, data: data@ }),
    {
        PluginResponse { success: true, data }
    }

    /// A failed answer carrying the message `data`.
    pub fn failed(data: String) -> (response: PluginResponse)
        ensures
            response@ == (ResponseView { success: false, data: data@ }),
    {
        PluginResponse { success: false, data }
    }
}

} // verus!
