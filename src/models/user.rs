use vstd::prelude::*;

verus! {

/// The profile picture of a user, with its link and the links of its sizes.
#[derive(Debug, Clone, PartialEq, Eq)]
pub struct UserImageData {
    pub link: String,
    pub versions: UserImageVersions,
}

/// The links of the sizes of a profile picture.
#[derive(Debug, Clone, PartialEq, Eq)]
pub struct UserImageVersions {
    pub large: String,
    pub medium: String,
    pub small: String,
    pub micro: String,
}

/// The profile of a user, as the `/v2/me` resource describes it.
#[derive(Debug, Clone, PartialEq, Eq)]
pub struct User {
    pub id: u32,
    pub email: String,
    pub login: String,
    pub first_name: String,
    pub last_name: String,
    pub usual_full_name: Option<String>,
    pub usual_first_name: Option<String>,
    pub url: String,
    pub phone: String,
    pub displayname: String,
    pub kind: String,
    pub image: UserImageData,
    pub staff: bool,
    pub correction_point: i32,
    pub wallet: i32,
}

} // verus!
