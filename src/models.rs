use vstd::prelude::*;

verus! {

/// A point in time, in UTC: whole seconds since the Unix epoch and the
/// nanoseconds past them.
#[derive(Clone, Copy, PartialEq, Eq, Structural)]
pub struct Timestamp {
    pub seconds: i64,
    pub nanos: u32,
}

impl Timestamp {
    pub open spec fn wf(&self) -> bool {
        self.nanos < 1_000_000_000
    }
}

/// A registered person.
#[derive(Clone)]
pub struct Person {
    pub id: String,
    pub username: String,
    pub email: String,
    pub password_hash: String,
    pub name: Option<String>,
    pub stage_name: Option<String>,
    pub profile_image_id: Option<String>,
    pub created_at: Timestamp,
    pub updated_at: Timestamp,
}

/// What others may see of a person: no email and no credentials.
#[derive(Clone)]
pub struct PublicPerson {
    pub id: String,
    pub username: String,
    pub name: Option<String>,
    pub stage_name: Option<String>,
    pub profile_image_id: Option<String>,
    pub created_at: Timestamp,
}

impl From<Person> for PublicPerson {
    fn from(person: Person) -> (r: PublicPerson) {
        PublicPerson {
            id: person.id,
            username: person.username,
            name: person.name,
            stage_name: person.stage_name,
            profile_image_id: person.profile_image_id,
            created_at: person.created_at,
        }
    }
}

impl vstd::std_specs::convert::FromSpecImpl<Person> for PublicPerson {
    open spec fn obeys_from_spec() -> bool {
        true
    }

    open spec fn from_spec(person: Person) -> PublicPerson {
        PublicPerson {
            id: person.id,
            username: person.username,
            name: person.name,
            stage_name: person.stage_name,
            profile_image_id: person.profile_image_id,
            created_at: person.created_at,
        }
    }
}

/// A stored image and who owns it.
#[derive(Clone)]
pub struct Image {
    pub id: String,
    pub person_id: String,
    pub filename: String,
    pub content_type: String,
    pub size: u64,
    pub storage_path: String,
    pub created_at: Timestamp,
}

pub struct RegisterRequest {
    pub username: String,
    pub email: String,
    pub password: String,
    pub name: Option<String>,
    pub stage_name: Option<String>,
}

pub struct LoginRequest {
    pub username: String,
    pub password: String,
}

pub struct AuthResponse {
    pub token: String,
    pub person: PublicPerson,
}

pub struct MessageResponse {
    pub message: String,
}

pub struct UpdatePersonProfile {
    pub name: Option<String>,
    pub stage_name: Option<String>,
}

pub struct CreatePersonRequest {
    pub username: String,
    pub email: String,
    pub password_hash: String,
    pub name: Option<String>,
    pub stage_name: Option<String>,
}

pub struct CreateImageRequest {
    pub person_id: String,
    pub filename: String,
    pub content_type: String,
    pub size: u64,
    pub storage_path: String,
}

/// The claims of an access token: subject (the person's id), name and times.
pub struct Claims {
    pub sub: String,
    pub username: String,
    pub exp: usize,
    pub iat: usize,
}

pub struct ImageUploadResponse {
    pub image: Image,
    pub url: String,
}

pub struct ProfileResponse {
    pub person: PublicPerson,
    pub images: Vec<Image>,
    pub profile_image_url: Option<String>,
}

pub struct ErrorResponse {
    pub error: String,
    pub message: String,
}

pub struct ValidationErrorResponse {
    pub error: String,
    pub message: String,
    pub fields: Vec<FieldError>,
}

pub struct FieldError {
    pub field: String,
    pub message: String,
}

} // verus!
