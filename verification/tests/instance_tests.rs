use composite_image::attestation::{
    AttestationError, AttestationStatus, CertIterator, MAX_CHALLENGE_LEN,
};
use composite_image::error::{ComposeError, IoContext, ProbeStep, SizeError};
use composite_image::image_type::ImageType;
use composite_image::io::IoFailure;
use composite_image::instance_starter::{InstanceStarter, INSTANCE_ID_LEN};

#[test]
fn starter_keeps_name_and_number() {
    let starter = InstanceStarter::new("Microfuchsia", 0);
    assert_eq!(starter.instance_name(), "Microfuchsia");
    assert_eq!(starter.instance_id(), 0);
    let other = InstanceStarter::new("", 255);
    assert_eq!(other.instance_name(), "");
    assert_eq!(other.instance_id(), 255);
}

#[test]
fn vm_instance_id_has_the_number_in_its_first_byte() {
    let id = InstanceStarter::new("a", 7).vm_instance_id();
    assert_eq!(id.len(), INSTANCE_ID_LEN);
    assert_eq!(id[0], 7);
    assert!(id[1..].iter().all(|b| *b == 0));
    assert_eq!(InstanceStarter::new("b", 0).vm_instance_id(), [0u8; 64]);
}

#[test]
fn status_maps_to_error() {
    assert_eq!(AttestationError::from_status(AttestationStatus::Attested), None);
    assert_eq!(
        AttestationError::from_status(AttestationStatus::InvalidChallenge),
        Some(AttestationError::InvalidChallenge)
    );
    assert_eq!(
        AttestationError::from_status(AttestationStatus::AttestationFailed),
        Some(AttestationError::AttestationFailed)
    );
    assert_eq!(
        AttestationError::from_status(AttestationStatus::Unsupported),
        Some(AttestationError::AttestationUnsupported)
    );
}

#[test]
fn error_maps_back_to_its_status() {
    for error in [
        AttestationError::InvalidChallenge,
        AttestationError::AttestationFailed,
        AttestationError::AttestationUnsupported,
    ] {
        assert_eq!(AttestationError::from_status(error.status()), Some(error));
    }
    assert_eq!(MAX_CHALLENGE_LEN, 64);
}

#[test]
fn certificates_are_walked_from_the_leaf() {
    let mut walk = CertIterator::new(3);
    assert_eq!(walk.size_hint(), (3, Some(3)));
    assert_eq!(walk.next_index(), Some(0));
    assert_eq!(walk.size_hint(), (2, Some(2)));
    assert_eq!(walk.next_index(), Some(1));
    assert_eq!(walk.next_index(), Some(2));
    assert_eq!(walk.size_hint(), (0, Some(0)));
    assert_eq!(walk.next_index(), None);
    assert_eq!(walk.next_index(), None);
    assert_eq!(walk.size_hint(), (0, Some(0)));
}

#[test]
fn empty_chain_has_no_certificate() {
    let mut walk = CertIterator::new(0);
    assert_eq!(walk.size_hint(), (0, Some(0)));
    assert_eq!(walk.next_index(), None);
}

#[test]
fn size_failures_are_tagged_with_the_partition() {
    assert_eq!(
        SizeError::SizeOverflow.for_partition(3),
        ComposeError::SizeOverflow { index: 3 }
    );
    assert_eq!(
        SizeError::UnsupportedImageType(ImageType::Qcow2).for_partition(0),
        ComposeError::UnsupportedImageType { index: 0, image_type: ImageType::Qcow2 }
    );
    assert_eq!(
        SizeError::Io(ProbeStep::Metadata, IoFailure::Os(5)).for_partition(9),
        ComposeError::IoError {
            context: IoContext::Partition { index: 9, step: ProbeStep::Metadata },
            cause: IoFailure::Os(5),
        }
    );
}
