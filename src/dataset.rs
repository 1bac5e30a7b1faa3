use vstd::prelude::*;

verus! {

/// One labelled text for classification.
#[derive(Clone, Debug)]
pub struct TextClassificationItem {
    /// The text to classify.
    pub text: String,
    /// Index of its class.
    pub label: usize,
}

impl TextClassificationItem {
    /// An item holding `text` with class index `label`.
    pub fn new(text: String, label: usize) -> (r: Self)
        ensures
            r.text == text,
            r.label == label,
    {
        TextClassificationItem { text, label }
    }
}

/// A labelled corpus that knows its class enumeration.
pub trait TextClassificationDataset {
    /// Number of distinct classes.
    fn num_classes() -> usize;

    /// Name of the class with index `label`.
    fn class_name(label: usize) -> String;
}

/// One record of the news-topic corpus, as stored.
#[derive(Clone, Debug)]
pub struct AgNewsItem {
    /// The news text.
    pub text: String,
    /// Index of its topic.
    pub label: usize,
}

impl AgNewsItem {
    /// The classification item carrying this record's text and label.
    pub fn into_item(self) -> (r: TextClassificationItem)
        ensures
            r.text == self.text,
            r.label == self.label,
    {
        TextClassificationItem::new(self.text, self.label)
    }
}

} // verus!
