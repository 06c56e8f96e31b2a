use composite_image::error::{ComposeError, IoContext, ProbeStep};
use composite_image::image_type::{DetectState, ImageType};
use composite_image::io::IoFailure;
use composite_image::partition::{ImagePartitionType, PartitionInfo, PartitionSpec};
use composite_image::resolver::{
    convert_partitions, Resolution, ResolveReply, ResolveRequest,
};
use composite_image::size::{reply_in_memory, SizeReply, SizeRequest};

const FIRST_DUPLICATE: i32 = 100;

fn spec(label: &str, handle: Option<i32>, writable: bool, guid: Option<&str>) -> PartitionSpec {
    PartitionSpec {
        label: label.to_string(),
        image_handle: handle,
        writable,
        guid: guid.map(|g| g.to_string()),
    }
}

fn sparse_image(blk_sz: u32, total_blks: u32) -> Vec<u8> {
    let mut bytes = Vec::new();
    bytes.extend_from_slice(&[0x3a, 0xff, 0x26, 0xed]);
    bytes.extend_from_slice(&[1, 0, 0, 0, 28, 0, 12, 0]);
    bytes.extend_from_slice(&blk_sz.to_le_bytes());
    bytes.extend_from_slice(&total_blks.to_le_bytes());
    bytes.extend_from_slice(&[0; 8]);
    bytes
}

/// Answers as files that hold `images` would: the image handle of the
/// partition at position `i` is duplicated to descriptor `FIRST_DUPLICATE + i`.
fn answer(images: &[Vec<u8>], request: ResolveRequest) -> ResolveReply {
    match request {
        ResolveRequest::Duplicate { index, .. } => {
            ResolveReply::Duplicated(Ok(FIRST_DUPLICATE + index as i32))
        }
        ResolveRequest::Probe { index, handle, request } => {
            assert_eq!(handle, FIRST_DUPLICATE + index as i32);
            ResolveReply::Probed(reply_in_memory(&images[index], request))
        }
    }
}

fn resolve(
    specs: Vec<PartitionSpec>,
    images: &[Vec<u8>],
) -> (Result<(Vec<PartitionInfo>, Vec<i32>), ComposeError>, Vec<ResolveRequest>) {
    let mut requests = Vec::new();
    let mut at = convert_partitions(specs);
    loop {
        match at {
            Resolution::Done(result) => return (result, requests),
            Resolution::Ask(state) => {
                let request = state.request();
                requests.push(request);
                at = state.step(&answer(images, request));
            }
        }
    }
}

#[test]
fn no_partitions_resolve_to_nothing() {
    let (result, requests) = resolve(vec![], &[]);
    let (partitions, handles) = result.unwrap();
    assert!(partitions.is_empty());
    assert!(handles.is_empty());
    assert!(requests.is_empty());
}

#[test]
fn raw_partition_is_resolved() {
    let images = vec![vec![0u8; 1 << 20]];
    let (result, requests) = resolve(vec![spec("data", Some(5), true, None)], &images);
    let (partitions, handles) = result.unwrap();
    assert_eq!(handles, vec![100]);
    assert_eq!(partitions.len(), 1);
    assert_eq!(partitions[0].label, "data");
    assert_eq!(partitions[0].path, "/proc/self/fd/100");
    assert_eq!(partitions[0].partition_type, ImagePartitionType::LinuxFilesystem);
    assert!(partitions[0].writable);
    assert_eq!(partitions[0].size, 1_048_576);
    assert_eq!(partitions[0].guid, None);
    assert_eq!(
        requests,
        vec![
            ResolveRequest::Duplicate { index: 0, handle: 5 },
            ResolveRequest::Probe { index: 0, handle: 100, request: SizeRequest::ReadExact(4) },
            ResolveRequest::Probe { index: 0, handle: 100, request: SizeRequest::ReadExact(15) },
            ResolveRequest::Probe { index: 0, handle: 100, request: SizeRequest::Length },
        ]
    );
}

#[test]
fn partitions_are_resolved_in_order() {
    let images = vec![vec![7u8; 10], sparse_image(4096, 256), vec![]];
    let specs = vec![
        spec("boot", Some(3), false, Some("550e8400-e29b-41d4-a716-446655440000")),
        spec("system", Some(4), true, None),
        spec("empty", Some(9), false, Some("00000000000000000000000000000002")),
    ];
    let (result, _) = resolve(specs, &images);
    let (partitions, handles) = result.unwrap();
    assert_eq!(handles, vec![100, 101, 102]);
    let labels: Vec<&str> = partitions.iter().map(|p| p.label.as_str()).collect();
    assert_eq!(labels, vec!["boot", "system", "empty"]);
    let paths: Vec<&str> = partitions.iter().map(|p| p.path.as_str()).collect();
    assert_eq!(paths, vec!["/proc/self/fd/100", "/proc/self/fd/101", "/proc/self/fd/102"]);
    let sizes: Vec<u64> = partitions.iter().map(|p| p.size).collect();
    assert_eq!(sizes, vec![10, 1_048_576, 0]);
    let writable: Vec<bool> = partitions.iter().map(|p| p.writable).collect();
    assert_eq!(writable, vec![false, true, false]);
    assert_eq!(partitions[0].guid, Some(0x550e8400_e29b_41d4_a716_446655440000));
    assert_eq!(partitions[1].guid, None);
    assert_eq!(partitions[2].guid, Some(2));
    for partition in &partitions {
        assert_eq!(partition.partition_type, ImagePartitionType::LinuxFilesystem);
    }
}

#[test]
fn duplicate_labels_are_let_through() {
    let images = vec![vec![1u8; 1], vec![2u8; 2]];
    let specs = vec![spec("same", Some(3), false, None), spec("same", Some(3), false, None)];
    let (result, _) = resolve(specs, &images);
    let (partitions, handles) = result.unwrap();
    assert_eq!(handles, vec![100, 101]);
    assert_eq!(partitions[0].label, "same");
    assert_eq!(partitions[1].label, "same");
    assert_eq!(partitions[1].size, 2);
}

#[test]
fn partition_without_handle_is_invalid() {
    let (result, requests) = resolve(vec![spec("data", None, true, None)], &[vec![]]);
    assert_eq!(result.unwrap_err(), ComposeError::InvalidPartition { index: 0 });
    assert!(requests.is_empty());
}

#[test]
fn later_partition_without_handle_fails_the_whole_list() {
    let images = vec![vec![0u8; 8], vec![], vec![0u8; 8]];
    let specs = vec![
        spec("a", Some(3), true, None),
        spec("b", None, true, None),
        spec("c", Some(4), true, None),
    ];
    let (result, requests) = resolve(specs, &images);
    assert_eq!(result.unwrap_err(), ComposeError::InvalidPartition { index: 1 });
    assert!(requests.iter().all(|r| match r {
        ResolveRequest::Duplicate { index, .. } => *index == 0,
        ResolveRequest::Probe { index, .. } => *index == 0,
    }));
}

#[test]
fn failed_duplication_ends_the_resolution() {
    let at = convert_partitions(vec![spec("a", Some(3), true, None)]);
    let state = match at {
        Resolution::Ask(state) => state,
        Resolution::Done(_) => panic!("the handle is to be duplicated"),
    };
    assert_eq!(state.request(), ResolveRequest::Duplicate { index: 0, handle: 3 });
    match state.step(&ResolveReply::Duplicated(Err(IoFailure::Os(24)))) {
        Resolution::Done(result) => assert_eq!(
            result.unwrap_err(),
            ComposeError::HandleCloneFailed { index: 0, cause: IoFailure::Os(24) }
        ),
        Resolution::Ask(_) => panic!("the resolution has failed"),
    }
}

#[test]
fn composite_disk_is_no_partition_image() {
    let images = vec![b"composite_disk\x1d and more".to_vec()];
    let (result, _) = resolve(vec![spec("nested", Some(3), false, None)], &images);
    assert_eq!(
        result.unwrap_err(),
        ComposeError::UnsupportedImageType { index: 0, image_type: ImageType::CompositeDisk }
    );
}

#[test]
fn qcow2_is_no_partition_image() {
    let images = vec![vec![1u8; 4], b"QFI\xfb".to_vec()];
    let specs = vec![spec("raw", Some(3), false, None), spec("qcow", Some(4), false, None)];
    let (result, _) = resolve(specs, &images);
    assert_eq!(
        result.unwrap_err(),
        ComposeError::UnsupportedImageType { index: 1, image_type: ImageType::Qcow2 }
    );
}

#[test]
fn malformed_guid_fails_the_whole_list() {
    let images = vec![vec![1u8; 4], vec![2u8; 4]];
    let specs = vec![
        spec("a", Some(3), false, Some("550e8400-e29b-41d4-a716-446655440000")),
        spec("b", Some(4), false, Some("550e8400")),
    ];
    let (result, _) = resolve(specs, &images);
    assert_eq!(result.unwrap_err(), ComposeError::BadGuid { index: 1 });
}

#[test]
fn read_failure_names_partition_and_step() {
    let specs = vec![spec("a", Some(3), false, None)];
    let state = match convert_partitions(specs) {
        Resolution::Ask(state) => state,
        Resolution::Done(_) => panic!("the handle is to be duplicated"),
    };
    let state = match state.step(&ResolveReply::Duplicated(Ok(8))) {
        Resolution::Ask(state) => state,
        Resolution::Done(_) => panic!("the size is to be computed"),
    };
    assert_eq!(
        state.request(),
        ResolveRequest::Probe { index: 0, handle: 8, request: SizeRequest::ReadExact(4) }
    );
    match state.step(&ResolveReply::Probed(SizeReply::Read(Err(IoFailure::Os(5))))) {
        Resolution::Done(result) => assert_eq!(
            result.unwrap_err(),
            ComposeError::IoError {
                context: IoContext::Partition { index: 0, step: ProbeStep::DetectImageType },
                cause: IoFailure::Os(5),
            }
        ),
        Resolution::Ask(_) => panic!("the resolution has failed"),
    }
}

#[test]
fn metadata_failure_names_partition_and_step() {
    let specs = vec![spec("a", Some(3), false, None)];
    let mut at = convert_partitions(specs);
    let replies = vec![
        ResolveReply::Duplicated(Ok(8)),
        ResolveReply::Probed(SizeReply::Read(Err(IoFailure::UnexpectedEof))),
        ResolveReply::Probed(SizeReply::Length(Err(IoFailure::Os(13)))),
    ];
    for reply in &replies {
        at = match at {
            Resolution::Ask(state) => state.step(reply),
            Resolution::Done(_) => panic!("ended early"),
        };
    }
    match at {
        Resolution::Done(result) => assert_eq!(
            result.unwrap_err(),
            ComposeError::IoError {
                context: IoContext::Partition { index: 0, step: ProbeStep::Metadata },
                cause: IoFailure::Os(13),
            }
        ),
        Resolution::Ask(_) => panic!("the resolution has failed"),
    }
}

#[test]
fn a_reply_of_the_wrong_kind_fails_the_operation_awaited() {
    let state = match convert_partitions(vec![spec("a", Some(3), false, None)]) {
        Resolution::Ask(state) => state,
        Resolution::Done(_) => panic!("the handle is to be duplicated"),
    };
    assert_eq!(
        state.unanswered(),
        ComposeError::HandleCloneFailed { index: 0, cause: IoFailure::Other }
    );
    match state.step(&ResolveReply::Probed(SizeReply::Length(Ok(1)))) {
        Resolution::Done(result) => assert_eq!(
            result.unwrap_err(),
            ComposeError::HandleCloneFailed { index: 0, cause: IoFailure::Other }
        ),
        Resolution::Ask(_) => panic!("the resolution has failed"),
    }
    let state = match convert_partitions(vec![spec("a", Some(3), false, None)]) {
        Resolution::Ask(state) => state,
        Resolution::Done(_) => panic!("the handle is to be duplicated"),
    };
    let state = match state.step(&ResolveReply::Duplicated(Ok(8))) {
        Resolution::Ask(state) => state,
        Resolution::Done(_) => panic!("the size is to be computed"),
    };
    match state.step(&ResolveReply::Duplicated(Ok(9))) {
        Resolution::Done(result) => assert_eq!(
            result.unwrap_err(),
            ComposeError::IoError {
                context: IoContext::Partition { index: 0, step: ProbeStep::DetectImageType },
                cause: IoFailure::Other,
            }
        ),
        Resolution::Ask(_) => panic!("the resolution has failed"),
    }
}

#[test]
fn detection_state_is_public() {
    assert_eq!(DetectState::Magic.read_len(), 4);
}
