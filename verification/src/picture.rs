//! The picture of one profile: where it comes from, and the avatar that is
//! made of it.
//!
//! An avatar is resolved once. The caller reads the picture file, if the
//! profile has one, and hands in what the read gave; the picture is decoded
//! by the `image` crate, or a placeholder of the profile's colour is made,
//! and the result is cropped to a circle.

use vstd::prelude::*;

use crate::error::FileOutcome;
use crate::error::ValetError;
use crate::paths::cached_picture_path;
use crate::paths::picture_path;
use crate::paths::LocalPath;
use crate::raster::masked;
use crate::raster::solid;
use crate::raster::RasterImage;
use crate::raster::RasterModel;

verus! {

/// Width and height of the placeholder of a profile that has no picture.
pub const PLACEHOLDER_SIZE: usize = 128;

/// How far the avatar of a profile has come.
#[derive(Debug)]
pub enum Avatar {
    /// Nothing was done yet.
    Unresolved,
    /// Somebody is at work on it.
    Resolving,
    /// The avatar, cropped to a circle.
    Resolved(RasterImage),
    /// There will be no avatar, for this reason.
    Failed(ValetError),
}

/// An `Avatar` as a mathematical value.
pub enum AvatarModel {
    Unresolved,
    Resolving,
    Resolved(RasterModel),
    Failed(ValetError),
}

impl View for Avatar {
    type V = AvatarModel;

    open spec fn view(&self) -> AvatarModel {
        match self {
            Avatar::Unresolved => AvatarModel::Unresolved,
            Avatar::Resolving => AvatarModel::Resolving,
            Avatar::Resolved(picture) => AvatarModel::Resolved(picture@),
            Avatar::Failed(error) => AvatarModel::Failed(*error),
        }
    }
}

impl AvatarModel {
    /// Resolved or failed: nothing further will be done.
    pub open spec fn is_settled(self) -> bool {
        self is Resolved || self is Failed
    }

    /// What a caller is told about the avatar: the failure, if there is one.
    pub open spec fn report(self) -> Result<(), ValetError> {
        match self {
            AvatarModel::Failed(error) => Err(error),
            _ => Ok(()),
        }
    }

    /// What becomes of a decoded picture: an avatar if it has four bytes for
    /// each of its pixels and is square, a failure otherwise.
    pub open spec fn of_decoded(decoded: Option<RasterModel>) -> AvatarModel {
        match decoded {
            None => AvatarModel::Failed(ValetError::DecodeError),
            Some(picture) => if !picture.well_formed() {
                AvatarModel::Failed(ValetError::DecodeError)
            } else if !picture.is_square() {
                AvatarModel::Failed(ValetError::NotSquare)
            } else {
                AvatarModel::Resolved(masked(picture))
            },
        }
    }

    /// What becomes of the attempt to read the picture file named
    /// `file_name`.
    pub open spec fn of_file(file_name: Seq<char>, file: FileOutcome) -> AvatarModel {
        match file {
            FileOutcome::Contents(bytes) => Self::of_decoded(decoded_picture(file_name, bytes@)),
            FileOutcome::Missing => AvatarModel::Failed(ValetError::NotFound),
            FileOutcome::Unreadable => AvatarModel::Failed(ValetError::IoError),
        }
    }
}

/// The picture of one profile.
#[derive(Debug)]
pub struct ChromeProfilePicture {
    /// The picture file that the browser cached; without parts where it
    /// cached none.
    pub picture_filename: LocalPath,
    /// The avatar, as far as it has come.
    pub avatar: Avatar,
    /// The colour of the profile: red, green, blue, alpha.
    pub profile_color: [u8; 4],
}

/// A `ChromeProfilePicture` as a mathematical value.
pub struct PictureModel {
    pub picture_filename: Seq<Seq<char>>,
    pub avatar: AvatarModel,
    pub profile_color: Seq<u8>,
}

impl View for ChromeProfilePicture {
    type V = PictureModel;

    open spec fn view(&self) -> PictureModel {
        PictureModel {
            picture_filename: self.picture_filename@,
            avatar: self.avatar@,
            profile_color: self.profile_color@,
        }
    }
}

impl PictureModel {
    /// The picture of a profile whose avatar was not asked for yet.
    pub open spec fn fresh(
        profile_dir: Seq<char>,
        img_filename: Seq<char>,
        profile_color: Seq<u8>,
    ) -> PictureModel {
        PictureModel {
            picture_filename: if img_filename.len() == 0 {
                Seq::empty()
            } else {
                picture_path(profile_dir, img_filename)
            },
            avatar: AvatarModel::Unresolved,
            profile_color,
        }
    }

    /// Whether resolving the avatar takes the contents of the picture file.
    pub open spec fn wants_file(self) -> bool {
        !self.avatar.is_settled() && self.picture_filename.len() > 0
    }

    /// The picture after its avatar was asked for, `file` being what reading
    /// the picture file gave. A settled avatar stays as it is. Otherwise the
    /// avatar is made of the file where the profile has one, and of its
    /// colour where it has none.
    pub open spec fn resolved(self, file: FileOutcome) -> PictureModel {
        if self.avatar.is_settled() {
            self
        } else {
            PictureModel {
                picture_filename: self.picture_filename,
                avatar: if self.picture_filename.len() > 0 {
                    AvatarModel::of_file(self.picture_filename.last(), file)
                } else {
                    AvatarModel::Resolved(masked(solid(self.profile_color, PLACEHOLDER_SIZE as nat)))
                },
                profile_color: self.profile_color,
            }
        }
    }
}

/// The reason the `image` crate gives for not decoding a picture.
#[verifier::external_type_specification]
#[verifier::external_body]
pub struct ExPictureError(image::ImageError);

/// What the `image` crate makes of the bytes of a picture file, the format
/// being told by the extension of the file's name: the picture as RGBA
/// bytes, or `None` where it decodes none.
pub uninterp spec fn decoded_picture(file_name: Seq<char>, bytes: Seq<u8>) -> Option<RasterModel>;

/// `image::io::Reader::decode` on `bytes`, with the format that
/// `image::ImageFormat::from_path` tells from `file_name`, and the picture
/// then converted with `image::DynamicImage::to_rgba8`. The contract only
/// names the outcome.
#[verifier::external_body]
fn decode_picture(file_name: &str, bytes: &[u8]) -> (decoded: Result<
    RasterImage,
    image::ImageError,
>)
    ensures
        match decoded {
            Ok(picture) => decoded_picture(file_name@, bytes@) == Some(picture@),
            Err(_) => decoded_picture(file_name@, bytes@) is None,
        },
{
    let mut reader = image::io::Reader::new(std::io::Cursor::new(bytes));
    if let Ok(format) = image::ImageFormat::from_path(file_name) {
        reader.set_format(format);
    }
    let picture = reader.decode()?;
    let width: usize = picture.width() as usize;
    let height: usize = picture.height() as usize;
    Ok(RasterImage { width, height, rgba: picture.to_rgba8().into_raw() })
}

impl Avatar {
    /// What becomes of a decoded picture: cropped to a circle it is the
    /// avatar, if it has four bytes for each of its pixels and is square.
    pub fn from_decoded(decoded: Option<RasterImage>) -> (avatar: Avatar)
        ensures
            avatar@ == AvatarModel::of_decoded(
                match decoded {
                    Some(picture) => Some(picture@),
                    None => None,
                },
            ),
            avatar matches Avatar::Resolved(picture) ==> picture@.well_formed()
                && picture@.is_square(),
    {
        match decoded {
            None => Avatar::Failed(ValetError::DecodeError),
            Some(picture) => {
                if !picture.is_well_formed() {
                    Avatar::Failed(ValetError::DecodeError)
                } else if picture.width != picture.height {
                    Avatar::Failed(ValetError::NotSquare)
                } else {
                    let mut picture = picture;
                    picture.apply_circle_mask();
                    Avatar::Resolved(picture)
                }
            },
        }
    }

    /// What becomes of the attempt to read the picture file named
    /// `file_name`.
    pub fn from_file(file_name: &str, file: &FileOutcome) -> (avatar: Avatar)
        ensures
            avatar@ == AvatarModel::of_file(file_name@, *file),
            avatar matches Avatar::Resolved(picture) ==> picture@.well_formed()
                && picture@.is_square(),
    {
        match file {
            FileOutcome::Contents(bytes) => match decode_picture(file_name, bytes.as_slice()) {
                Ok(picture) => Self::from_decoded(Some(picture)),
                Err(_) => Self::from_decoded(None),
            },
            FileOutcome::Missing => Avatar::Failed(ValetError::NotFound),
            FileOutcome::Unreadable => Avatar::Failed(ValetError::IoError),
        }
    }
}

impl ChromeProfilePicture {
    /// The picture of the profile in `profile_dir`, whose cached picture is
    /// the file `img_filename` in that directory, or none where the name is
    /// empty.
    pub fn new(profile_dir: &str, img_filename: &str, profile_color: &[u8; 4]) -> (picture: Self)
        ensures
            picture@ == PictureModel::fresh(profile_dir@, img_filename@, profile_color@),
    {
        let picture_filename = if img_filename.is_empty() {
            LocalPath::empty()
        } else {
            cached_picture_path(profile_dir, img_filename)
        };
        ChromeProfilePicture {
            picture_filename,
            avatar: Avatar::Unresolved,
            profile_color: *profile_color,
        }
    }

    /// The avatar, once it is resolved.
    pub fn img(&self) -> (img: Option<&RasterImage>)
        ensures
            match self.avatar {
                Avatar::Resolved(picture) => img == Some(&picture),
                _ => img is None,
            },
    {
        match &self.avatar {
            Avatar::Resolved(picture) => Some(picture),
            _ => None,
        }
    }

    /// Whether resolving the avatar takes the contents of the picture file.
    pub fn wants_file(&self) -> (wanted: bool)
        ensures
            wanted == self@.wants_file(),
    {
        let settled = match &self.avatar {
            Avatar::Resolved(_) => true,
            Avatar::Failed(_) => true,
            _ => false,
        };
        !settled && !self.picture_filename.is_empty()
    }

    /// Claims the avatar for resolving: true where nothing was done on it
    /// yet, and then it counts as being worked on; false, and nothing
    /// changed, in every other state.
    pub fn begin_resolving(&mut self) -> (claimed: bool)
        ensures
            claimed == (old(self)@.avatar is Unresolved),
            claimed ==> final(self)@ == (PictureModel {
                avatar: AvatarModel::Resolving,
                ..old(self)@
            }),
            !claimed ==> final(self)@ == old(self)@,
    {
        match &self.avatar {
            Avatar::Unresolved => {
                self.avatar = Avatar::Resolving;
                true
            },
            _ => false,
        }
    }

    /// Resolves the avatar, `file` being what reading the file named by
    /// `picture_filename` gave (it is not looked at where that name is
    /// empty). Reports the failure where there is no avatar. Once the avatar
    /// is resolved or has failed, further calls change nothing and report
    /// the same.
    pub fn get_picture(&mut self, file: &FileOutcome) -> (result: Result<(), ValetError>)
        ensures
            final(self)@ == old(self)@.resolved(*file),
            result == final(self)@.avatar.report(),
            final(self)@.avatar.is_settled(),
            !old(self)@.avatar.is_settled() ==> (final(self)@.avatar matches AvatarModel::Resolved(
                picture,
            ) ==> picture.well_formed() && picture.is_square()),
    {
        match &self.avatar {
            Avatar::Resolved(_) => {
                return Ok(());
            },
            Avatar::Failed(error) => {
                return Err(*error);
            },
            _ => {},
        }
        let avatar = if !self.picture_filename.is_empty() {
            Avatar::from_file(self.picture_filename.file_name(), file)
        } else {
            let mut placeholder = RasterImage::solid(&self.profile_color, PLACEHOLDER_SIZE);
            placeholder.apply_circle_mask();
            Avatar::Resolved(placeholder)
        };
        let result = match &avatar {
            Avatar::Failed(error) => Err(*error),
            _ => Ok(()),
        };
        self.avatar = avatar;
        result
    }
}

/// Resolving an avatar a second time changes nothing, whatever the second
/// read of the picture file gave: the first result stays.
pub proof fn lemma_resolve_idempotent(picture: PictureModel, first: FileOutcome, second: FileOutcome)
    ensures
        picture.resolved(first).resolved(second) == picture.resolved(first),
        picture.resolved(first).avatar.is_settled(),
{
}

} // verus!
