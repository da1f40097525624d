//! What a renderer reads of a search/select mode.

use crate::text::texts;
use vstd::prelude::*;

verus! {

/// Display settings of a search/select mode.
#[derive(Clone, Copy, Debug, PartialEq, Eq, Structural)]
pub struct SearchSelectConfig {
    /// The number of rows reserved for results; the query row follows them.
    pub max_results: usize,
}

/// A search/select mode: a query being typed and the items it has found.
#[derive(Clone, Debug, PartialEq, Eq)]
pub struct SearchSelectMode {
    title: String,
    config: SearchSelectConfig,
    query: String,
    results: Vec<String>,
    selected_index: usize,
    message: Option<String>,
    insert: bool,
}

/// The mathematical value of a search/select mode.
pub struct SearchSelectView {
    pub title: Seq<char>,
    pub max_results: nat,
    pub query: Seq<char>,
    pub results: Seq<Seq<char>>,
    pub selected_index: nat,
    pub message: Option<Seq<char>>,
    pub insert_mode: bool,
}

impl View for SearchSelectMode {
    type V = SearchSelectView;

    closed spec fn view(&self) -> SearchSelectView {
        SearchSelectView {
            title: self.title@,
            max_results: self.config.max_results as nat,
            query: self.query@,
            results: texts(self.results@),
            selected_index: self.selected_index as nat,
            message: match self.message {
                Some(m) => Some(m@),
                None => None,
            },
            insert_mode: self.insert,
        }
    }
}

impl SearchSelectMode {
    /// A mode with the given name, settings, query, results, selection,
    /// message and sub-state.
    pub fn new(
        title: String,
        config: SearchSelectConfig,
        query: String,
        results: Vec<String>,
        selected_index: usize,
        message: Option<String>,
        insert: bool,
    ) -> (mode: SearchSelectMode)
        ensures
            mode@.title == title@,
            mode@.max_results == config.max_results,
            mode@.query == query@,
            mode@.results == texts(results@),
            mode@.selected_index == selected_index,
            mode@.message == (match message {
                Some(m) => Some(m@),
                None => None,
            }),
            mode@.insert_mode == insert,
    {
        SearchSelectMode { title, config, query, results, selected_index, message, insert }
    }

    /// The name the mode is announced by on the status line.
    pub fn title(&self) -> (title: &str)
        ensures
            title@ == self@.title,
    {
        self.title.as_str()
    }

    /// The display settings.
    pub fn config(&self) -> (config: SearchSelectConfig)
        ensures
            config.max_results == self@.max_results,
    {
        self.config
    }

    /// The query as typed so far.
    pub fn query(&self) -> (query: &str)
        ensures
            query@ == self@.query,
    {
        self.query.as_str()
    }

    /// The items found, best first, each by its text.
    pub fn results(&self) -> (results: &Vec<String>)
        ensures
            texts(results@) == self@.results,
    {
        &self.results
    }

    /// The index of the selected item.
    pub fn selected_index(&self) -> (index: usize)
        ensures
            index == self@.selected_index,
    {
        self.selected_index
    }

    /// The message shown in place of the results, if there is one.
    pub fn message(&self) -> (message: Option<&String>)
        ensures
            message is Some <==> self@.message is Some,
            message matches Some(m) ==> self@.message == Some(m@),
    {
        self.message.as_ref()
    }

    /// Whether the query is being edited (as opposed to the results being
    /// browsed).
    pub fn insert_mode(&self) -> (insert: bool)
        ensures
            insert == self@.insert_mode,
    {
        self.insert
    }
}

} // verus!
