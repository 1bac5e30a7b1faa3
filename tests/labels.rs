use news_classifier::dataset::{AgNewsItem, TextClassificationItem};
use news_classifier::labels::{class_name, num_classes};

#[test]
fn num_classes_is_four() {
    assert_eq!(num_classes(), 4);
}

#[test]
fn class_names_in_index_order() {
    assert_eq!(class_name(0), "World");
    assert_eq!(class_name(1), "Sports");
    assert_eq!(class_name(2), "Business");
    assert_eq!(class_name(3), "Technology");
}

#[test]
fn every_index_names_a_distinct_class() {
    let names: Vec<String> = (0..num_classes()).map(class_name).collect();
    for i in 0..names.len() {
        for j in (i + 1)..names.len() {
            assert_ne!(names[i], names[j]);
        }
    }
}

#[test]
fn item_keeps_text_and_label() {
    let item = TextClassificationItem::new("Markets rally".to_string(), 2);
    assert_eq!(item.text, "Markets rally");
    assert_eq!(item.label, 2);
}

#[test]
fn news_record_becomes_item() {
    let record = AgNewsItem { text: "Cup final tonight".to_string(), label: 1 };
    let item = record.into_item();
    assert_eq!(item.text, "Cup final tonight");
    assert_eq!(item.label, 1);
}
