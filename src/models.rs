use vstd::prelude::*;

use crate::error::Error;

verus! {

/// What a section of a guide holds, as mathematical text.
pub struct SectionView {
    pub title: Seq<char>,
    pub content: Seq<char>,
    pub section_type: Seq<char>,
}

/// One titled, typed block of a guide's content.
#[derive(Debug)]
pub struct Section {
    pub title: String,
    pub content: String,
    /// Free-form classification of the block ("text", "image", ...).
    pub section_type: String,
}

impl View for Section {
    type V = SectionView;

    open spec fn view(&self) -> SectionView {
        SectionView { title: self.title@, content: self.content@, section_type: self.section_type@ }
    }
}

impl Clone for Section {
    fn clone(&self) -> (r: Self)
        ensures
            r@ == self@,
    {
        Section {
            title: self.title.clone(),
            content: self.content.clone(),
            section_type: self.section_type.clone(),
        }
    }
}

/// The text of each string of a sequence.
pub open spec fn texts(v: Seq<String>) -> Seq<Seq<char>> {
    v.map_values(|s: String| s@)
}

/// The view of each section of a sequence.
pub open spec fn section_views(v: Seq<Section>) -> Seq<SectionView> {
    v.map_values(|s: Section| s@)
}

/// Copies a list of strings.
pub fn clone_texts(v: &Vec<String>) -> (r: Vec<String>)
    ensures
        texts(r@) == texts(v@),
{
    let r = v.clone();
    proof {
        assert forall|i: int| 0 <= i < v@.len() implies r@[i] == v@[i] by {
            assert(cloned::<String>(v[i], r[i]));
        }
        assert(texts(r@) =~= texts(v@));
    }
    r
}

/// Copies a list of sections.
pub fn clone_sections(v: &Vec<Section>) -> (r: Vec<Section>)
    ensures
        section_views(r@) == section_views(v@),
{
    let r = v.clone();
    proof {
        assert forall|i: int| 0 <= i < v@.len() implies r@[i]@ == v@[i]@ by {
            assert(cloned::<Section>(v[i], r[i]));
        }
        assert(section_views(r@) =~= section_views(v@));
    }
    r
}

/// What a guide holds, as mathematical values.
pub struct GuideView {
    pub id: u128,
    pub title: Seq<char>,
    pub main_image: Seq<char>,
    pub tags: Seq<Seq<char>>,
    pub content: Seq<SectionView>,
    pub created_at: i64,
    pub updated_at: i64,
}

/// A travel guide.
///
/// The identity is a 128-bit token (the value of a UUID). Timestamps are
/// microseconds since the Unix epoch, in UTC.
#[derive(Debug)]
pub struct Guide {
    pub id: u128,
    pub title: String,
    /// Reference to the cover image.
    pub main_image: String,
    pub tags: Vec<String>,
    pub content: Vec<Section>,
    pub created_at: i64,
    pub updated_at: i64,
}

impl View for Guide {
    type V = GuideView;

    open spec fn view(&self) -> GuideView {
        GuideView {
            id: self.id,
            title: self.title@,
            main_image: self.main_image@,
            tags: texts(self.tags@),
            content: section_views(self.content@),
            created_at: self.created_at,
            updated_at: self.updated_at,
        }
    }
}

impl Clone for Guide {
    fn clone(&self) -> (r: Self)
        ensures
            r@ == self@,
    {
        Guide {
            id: self.id,
            title: self.title.clone(),
            main_image: self.main_image.clone(),
            tags: clone_texts(&self.tags),
            content: clone_sections(&self.content),
            created_at: self.created_at,
            updated_at: self.updated_at,
        }
    }
}

/// The body of a request that creates a guide: every field is required.
#[derive(Debug)]
pub struct CreateGuideRequest {
    pub title: String,
    pub main_image: String,
    pub tags: Vec<String>,
    pub content: Vec<Section>,
}

/// The body of a request that updates a guide: an absent field is left as it is.
#[derive(Debug)]
pub struct UpdateGuideRequest {
    pub title: Option<String>,
    pub main_image: Option<String>,
    pub tags: Option<Vec<String>>,
    pub content: Option<Vec<Section>>,
}

/// Who wrote a message of a conversation.
#[derive(Debug, Clone, Copy, PartialEq, Eq, Structural)]
pub enum Role {
    User,
    Assistant,
}

/// The wire name of each role.
pub open spec fn role_name(r: Role) -> Seq<char> {
    match r {
        Role::User => "user"@,
        Role::Assistant => "assistant"@,
    }
}

impl Role {
    /// The role with wire name `s`; `InvalidInput` for any other name.
    pub fn parse(s: &String) -> (r: Result<Role, Error>)
        ensures
            r matches Ok(role) ==> role_name(role) == s@,
            r is Err <==> (s@ != "user"@ && s@ != "assistant"@),
            r matches Err(e) ==> e is InvalidInput,
    {
        if *s == String::from_str("user") {
            Ok(Role::User)
        } else if *s == String::from_str("assistant") {
            Ok(Role::Assistant)
        } else {
            proof {
                reveal_strlit("user");
                reveal_strlit("assistant");
            }
            Err(Error::InvalidInput(String::from_str("unknown message role")))
        }
    }

    /// The wire name of the role.
    pub fn name(&self) -> (r: String)
        ensures
            r@ == role_name(*self),
    {
        match self {
            Role::User => String::from_str("user"),
            Role::Assistant => String::from_str("assistant"),
        }
    }
}

/// One message of a conversation with the assistant.
#[derive(Debug, Clone)]
pub struct ChatMessage {
    pub role: Role,
    pub content: String,
}

/// A message for the assistant, with the conversation so far.
#[derive(Debug)]
pub struct ChatRequest {
    pub message: String,
    pub history: Option<Vec<ChatMessage>>,
}

/// The assistant's reply and when it was produced (microseconds since the epoch).
#[derive(Debug)]
pub struct ChatResponse {
    pub message: String,
    pub created_at: i64,
}

} // verus!
