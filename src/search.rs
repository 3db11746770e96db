use vstd::prelude::*;

verus! {

/// Most recommendations shown for one search.
pub const MAX_RECOMMENDATIONS: usize = 3;

/// One movie shown as a search result.
#[derive(Debug)]
pub struct MovieRecommendation {
    pub title: String,
    pub release_year: String,
}

/// State of the search form: the text typed in and the results shown.
#[derive(Debug)]
pub struct MyApp {
    pub query: String,
    pub query_keywords: String,
    pub recommendations: Vec<MovieRecommendation>,
}

impl Default for MyApp {
    fn default() -> (r: MyApp)
        ensures
            r.query@.len() == 0,
            r.query_keywords@.len() == 0,
            r.recommendations@.len() == 0,
    {
        MyApp { query: String::new(), query_keywords: String::new(), recommendations: Vec::new() }
    }
}

impl MyApp {
    /// Shows the results of a search: nothing when the query is empty, else the
    /// first `MAX_RECOMMENDATIONS` of `found`, in order.
    pub fn perform_search(&mut self, found: Vec<MovieRecommendation>)
        ensures
            final(self).query == old(self).query,
            final(self).query_keywords == old(self).query_keywords,
            old(self).query@.len() == 0 ==> final(self).recommendations@.len() == 0,
            old(self).query@.len() != 0 ==> final(self).recommendations@ == found@.take(
                if found@.len() < MAX_RECOMMENDATIONS {
                    found@.len() as int
                } else {
                    MAX_RECOMMENDATIONS as int
                },
            ),
    {
        if self.query.as_str().is_empty() {
            self.recommendations.clear();
        } else {
            let mut found = found;
            found.truncate(MAX_RECOMMENDATIONS);
            self.recommendations = found;
        }
    }
}

} // verus!
