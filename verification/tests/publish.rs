use hmc5883l_embed::publish::{PublishCell, Unpublished};

#[test]
fn a_new_cell_is_empty() {
    let mut cell: PublishCell<u32> = PublishCell::new();
    assert!(!cell.is_published());
    assert_eq!(cell.get_mut(), Err(Unpublished));
    assert!(!cell.is_published());
}

#[test]
fn a_published_value_can_be_used() {
    let mut cell: PublishCell<u32> = PublishCell::new();
    assert_eq!(cell.publish(7), Ok(()));
    assert!(cell.is_published());
    assert_eq!(cell.get_mut(), Ok(&mut 7));
    *cell.get_mut().unwrap() += 1;
    assert_eq!(cell.get_mut(), Ok(&mut 8));
}

#[test]
fn a_second_publish_is_refused() {
    let mut cell: PublishCell<u32> = PublishCell::new();
    assert_eq!(cell.publish(7), Ok(()));
    assert_eq!(cell.publish(9), Err(9));
    assert_eq!(cell.get_mut(), Ok(&mut 7));
}
