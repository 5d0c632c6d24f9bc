use polaris::error::{status, APIError};

#[test]
fn refusals_have_their_status() {
    assert_eq!(status::<()>(&APIError::InvalidAlbumArtPattern), Some(400));
    assert_eq!(status::<()>(&APIError::InvalidDDNSURL), Some(400));
    assert_eq!(status::<()>(&APIError::OwnAdminPrivilegeRemoval), Some(409));
    assert_eq!(status::<()>(&APIError::DeletingOwnAccount), Some(409));
    assert_eq!(status::<()>(&APIError::AudioFileIOError), Some(404));
    assert_eq!(status::<()>(&APIError::ThumbnailFileIOError), Some(404));
    assert_eq!(status(&APIError::Manager(401)), None);
}
