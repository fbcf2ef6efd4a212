use vtracer::cluster::BoundingRect;
use vtracer::segmentation::{Region, Segmentation};

fn region(indices: &[u32]) -> Region {
    Region {
        indices: indices.to_vec(),
        holes: Vec::new(),
        num_holes: 0,
        depth: 0,
        rect: BoundingRect { left: 0, top: 0, right: 0, bottom: 0 },
        merged_into: 0,
    }
}

fn segmentation(owners: &[u32], clusters: &[&[u32]]) -> Segmentation {
    Segmentation {
        width: owners.len() as u32,
        height: 1,
        owners: owners.to_vec(),
        clusters: clusters.iter().map(|c| region(c)).collect(),
        output: Vec::new(),
    }
}

#[test]
fn clusters_that_list_their_pixels_once_are_a_partition() {
    assert!(segmentation(&[1, 1, 2, 2, 1], &[&[], &[0, 4, 1], &[3, 2]]).check_partition());
    assert!(segmentation(&[], &[]).check_partition());
    assert!(segmentation(&[], &[&[]]).check_partition());
    assert!(segmentation(&[], &[&[], &[]]).check_partition());
}

#[test]
fn keyed_pixels_are_left_out_of_the_partition() {
    assert!(segmentation(&[0, 1, 0, 2, 0], &[&[], &[1], &[3]]).check_partition());
    // what the reserved cluster lists does not count
    assert!(segmentation(&[0, 1, 0, 2, 0], &[&[0, 2, 4], &[1], &[3]]).check_partition());
    assert!(segmentation(&[0, 0], &[]).check_partition());
}

#[test]
fn pixel_listed_twice_is_no_partition() {
    assert!(!segmentation(&[1, 1, 2], &[&[], &[0, 1, 0], &[2]]).check_partition());
}

#[test]
fn pixel_listed_by_two_clusters_is_no_partition() {
    assert!(!segmentation(&[1, 1, 2], &[&[], &[0, 1], &[2, 1]]).check_partition());
}

#[test]
fn pixel_missing_from_its_owner_is_no_partition() {
    assert!(!segmentation(&[1, 1, 2], &[&[], &[0], &[2]]).check_partition());
    assert!(!segmentation(&[1, 1, 3], &[&[], &[0, 1], &[]]).check_partition());
    assert!(!segmentation(&[1], &[]).check_partition());
}

#[test]
fn listed_keyed_pixel_is_no_partition() {
    assert!(!segmentation(&[1, 0], &[&[], &[0, 1]]).check_partition());
}

#[test]
fn listed_index_beyond_the_image_is_no_partition() {
    assert!(!segmentation(&[1, 1], &[&[], &[0, 1, 2]]).check_partition());
}
