//! What the engine's registry holds: elements and plugins as the server shows them, a cache
//! of both, and the search among elements.

use crate::error::GStreamerMcpError;
use crate::text::{
    arranged, chars_of, contains_text, copy_names, decimal_digits, is_sorted_order, is_sorting,
    join, joined, lemma_text_order_is_total, lowercase_of, optional_text, same_chars, sorted_order, text_contains, texts_of,
    to_lowercase, unsigned_decimal,
};
use vstd::prelude::*;
use vstd::string::*;

verus! {

/// One element of the engine's registry.
#[derive(Debug)]
pub struct ElementInfo {
    pub name: String,
    pub description: String,
    pub plugin_name: String,
    pub rank: String,
    pub classification: String,
}

/// What an `ElementInfo` holds.
#[verifier::ext_equal]
pub struct ElementInfoView {
    pub name: Seq<char>,
    pub description: Seq<char>,
    pub plugin_name: Seq<char>,
    pub rank: Seq<char>,
    pub classification: Seq<char>,
}

impl View for ElementInfo {
    type V = ElementInfoView;

    open spec fn view(&self) -> ElementInfoView {
        ElementInfoView {
            name: self.name@,
            description: self.description@,
            plugin_name: self.plugin_name@,
            rank: self.rank@,
            classification: self.classification@,
        }
    }
}

impl Clone for ElementInfo {
    fn clone(&self) -> (copy: Self)
        ensures
            copy@ == self@,
    {
        ElementInfo {
            name: self.name.clone(),
            description: self.description.clone(),
            plugin_name: self.plugin_name.clone(),
            rank: self.rank.clone(),
            classification: self.classification.clone(),
        }
    }
}

/// What each of `elements` holds, in the same order.
pub open spec fn element_views(elements: Seq<ElementInfo>) -> Seq<ElementInfoView> {
    Seq::new(elements.len(), |i: int| elements[i]@)
}

/// One property of an element.
#[derive(Debug)]
pub struct PropertyInfo {
    pub name: String,
    /// The name of the type of the property's values.
    pub value_type: String,
    pub description: String,
    pub flags: Vec<String>,
    pub default_value: Option<String>,
}

/// One pad template of an element.
#[derive(Debug)]
pub struct PadTemplateInfo {
    pub name: String,
    pub direction: String,
    pub presence: String,
    pub caps: String,
}

/// One signal of an element.
#[derive(Debug)]
pub struct SignalInfo {
    pub name: String,
    pub return_type: String,
    pub parameters: Vec<String>,
}

/// One element of the engine's registry, in detail.
#[derive(Debug)]
pub struct ElementDetailedInfo {
    pub name: String,
    pub description: String,
    pub plugin_name: String,
    pub rank: String,
    pub classification: String,
    pub properties: Vec<PropertyInfo>,
    pub pad_templates: Vec<PadTemplateInfo>,
    pub signals: Vec<SignalInfo>,
}

/// One plugin of the engine's registry.
#[derive(Debug)]
pub struct PluginInfo {
    pub name: String,
    pub description: String,
    pub filename: Option<String>,
    pub version: String,
    pub license: String,
    pub source: String,
    pub elements: Vec<String>,
}

/// What a `PluginInfo` holds.
#[verifier::ext_equal]
pub struct PluginInfoView {
    pub name: Seq<char>,
    pub description: Seq<char>,
    pub filename: Option<Seq<char>>,
    pub version: Seq<char>,
    pub license: Seq<char>,
    pub source: Seq<char>,
    pub elements: Seq<Seq<char>>,
}

impl View for PluginInfo {
    type V = PluginInfoView;

    open spec fn view(&self) -> PluginInfoView {
        PluginInfoView {
            name: self.name@,
            description: self.description@,
            filename: optional_text(self.filename),
            version: self.version@,
            license: self.license@,
            source: self.source@,
            elements: texts_of(self.elements@),
        }
    }
}

impl Clone for PluginInfo {
    fn clone(&self) -> (copy: Self)
        ensures
            copy@ == self@,
    {
        PluginInfo {
            name: self.name.clone(),
            description: self.description.clone(),
            filename: self.filename.clone(),
            version: self.version.clone(),
            license: self.license.clone(),
            source: self.source.clone(),
            elements: copy_names(&self.elements),
        }
    }
}

/// What each of `plugins` holds, in the same order.
pub open spec fn plugin_views(plugins: Seq<PluginInfo>) -> Seq<PluginInfoView> {
    Seq::new(plugins.len(), |i: int| plugins[i]@)
}

/// A copy of a list of elements.
pub fn copy_elements(elements: &Vec<ElementInfo>) -> (copy: Vec<ElementInfo>)
    ensures
        element_views(copy@) == element_views(elements@),
{
    let mut copy: Vec<ElementInfo> = Vec::new();
    let mut i: usize = 0;
    while i < elements.len()
        invariant
            i <= elements.len(),
            copy.len() == i,
            forall|k: int| 0 <= k < i ==> (#[trigger] copy[k])@ == elements[k]@,
        decreases elements.len() - i,
    {
        copy.push(elements[i].clone());
        i = i + 1;
    }
    assert(element_views(copy@) =~= element_views(elements@));
    copy
}

/// A copy of a list of plugins.
pub fn copy_plugins(plugins: &Vec<PluginInfo>) -> (copy: Vec<PluginInfo>)
    ensures
        plugin_views(copy@) == plugin_views(plugins@),
{
    let mut copy: Vec<PluginInfo> = Vec::new();
    let mut i: usize = 0;
    while i < plugins.len()
        invariant
            i <= plugins.len(),
            copy.len() == i,
            forall|k: int| 0 <= k < i ==> (#[trigger] copy[k])@ == plugins[k]@,
        decreases plugins.len() - i,
    {
        copy.push(plugins[i].clone());
        i = i + 1;
    }
    assert(plugin_views(copy@) =~= plugin_views(plugins@));
    copy
}

/// What was discovered of the engine's registry, kept until it is cleared.
pub struct DiscoveryCache {
    elements: Option<Vec<ElementInfo>>,
    plugins: Option<Vec<PluginInfo>>,
}

impl DiscoveryCache {
    /// The elements that the cache holds, if it holds any list of them.
    pub closed spec fn cached_elements(&self) -> Option<Seq<ElementInfoView>> {
        match self.elements {
            Some(list) => Some(element_views(list@)),
            None => None,
        }
    }

    /// The plugins that the cache holds, if it holds any list of them.
    pub closed spec fn cached_plugins(&self) -> Option<Seq<PluginInfoView>> {
        match self.plugins {
            Some(list) => Some(plugin_views(list@)),
            None => None,
        }
    }

    /// An empty cache.
    pub fn new() -> (cache: Self)
        ensures
            cache.cached_elements() is None,
            cache.cached_plugins() is None,
    {
        DiscoveryCache { elements: None, plugins: None }
    }

    /// Whether the cache holds a list of elements, so that none need be discovered.
    pub fn has_elements(&self) -> (held: bool)
        ensures
            held == self.cached_elements() is Some,
    {
        self.elements.is_some()
    }

    /// Whether the cache holds a list of plugins, so that none need be discovered.
    pub fn has_plugins(&self) -> (held: bool)
        ensures
            held == self.cached_plugins() is Some,
    {
        self.plugins.is_some()
    }

    /// The elements of the registry: those that the cache holds, and where it holds none,
    /// those that were `discovered`, which the cache then keeps. A discovery that failed
    /// is returned as it is and leaves the cache empty.
    pub fn get_elements(
        &mut self,
        discovered: Result<Vec<ElementInfo>, GStreamerMcpError>,
    ) -> (result: Result<Vec<ElementInfo>, GStreamerMcpError>)
        ensures
            final(self).cached_plugins() == old(self).cached_plugins(),
            match old(self).cached_elements() {
                Some(held) => final(self).cached_elements() == Some(held) && (result matches Ok(
                    list,
                ) && element_views(list@) == held),
                None => match discovered {
                    Ok(found) => final(self).cached_elements() == Some(element_views(found@)) && (
                    result matches Ok(list) && element_views(list@) == element_views(found@)),
                    Err(error) => final(self).cached_elements() is None && result == Err::<
                        Vec<ElementInfo>,
                        GStreamerMcpError,
                    >(error),
                },
            },
    {
        if self.elements.is_none() {
            match discovered {
                Ok(found) => {
                    self.elements = Some(found);
                },
                Err(error) => {
                    return Err(error);
                },
            }
        }
        match &self.elements {
            Some(list) => Ok(copy_elements(list)),
            None => Ok(Vec::new()),
        }
    }

    /// The plugins of the registry: those that the cache holds, and where it holds none,
    /// those that were `discovered`, which the cache then keeps. A discovery that failed
    /// is returned as it is and leaves the cache empty.
    pub fn get_plugins(
        &mut self,
        discovered: Result<Vec<PluginInfo>, GStreamerMcpError>,
    ) -> (result: Result<Vec<PluginInfo>, GStreamerMcpError>)
        ensures
            final(self).cached_elements() == old(self).cached_elements(),
            match old(self).cached_plugins() {
                Some(held) => final(self).cached_plugins() == Some(held) && (result matches Ok(
                    list,
                ) && plugin_views(list@) == held),
                None => match discovered {
                    Ok(found) => final(self).cached_plugins() == Some(plugin_views(found@)) && (
                    result matches Ok(list) && plugin_views(list@) == plugin_views(found@)),
                    Err(error) => final(self).cached_plugins() is None && result == Err::<
                        Vec<PluginInfo>,
                        GStreamerMcpError,
                    >(error),
                },
            },
    {
        if self.plugins.is_none() {
            match discovered {
                Ok(found) => {
                    self.plugins = Some(found);
                },
                Err(error) => {
                    return Err(error);
                },
            }
        }
        match &self.plugins {
            Some(list) => Ok(copy_plugins(list)),
            None => Ok(Vec::new()),
        }
    }

    /// Empties the cache.
    pub fn clear(&mut self)
        ensures
            final(self).cached_elements() is None,
            final(self).cached_plugins() is None,
    {
        self.elements = None;
        self.plugins = None;
    }
}

/// How well an element matches a query whose lower-case form is `wanted`, letter case
/// apart: 100 for a name that is the query, or 50 for a name that holds it; and 20 more
/// for a description that holds it; and 10 more for a classification that holds it.
pub open spec fn score_for(element: ElementInfoView, wanted: Seq<char>) -> int {
    let name = lowercase_of(element.name);
    (if name == wanted {
        100int
    } else if contains_text(name, wanted) {
        50int
    } else {
        0int
    }) + (if contains_text(lowercase_of(element.description), wanted) {
        20int
    } else {
        0int
    }) + (if contains_text(lowercase_of(element.classification), wanted) {
        10int
    } else {
        0int
    })
}

/// How well an element matches a query, letter case apart.
pub open spec fn match_score(element: ElementInfoView, query: Seq<char>) -> int {
    score_for(element, lowercase_of(query))
}

/// The scores above 0 that an element can have, highest first.
pub open spec fn score_levels() -> Seq<int> {
    seq![130, 120, 110, 100, 80, 70, 60, 50, 30, 20, 10]
}

/// Those of `elements` whose score for `query` is `level`, in the same order.
pub open spec fn with_score(
    elements: Seq<ElementInfoView>,
    query: Seq<char>,
    level: int,
) -> Seq<ElementInfoView>
    decreases elements.len(),
{
    if elements.len() == 0 {
        Seq::<ElementInfoView>::empty()
    } else if match_score(elements.last(), query) == level {
        with_score(elements.drop_last(), query, level).push(elements.last())
    } else {
        with_score(elements.drop_last(), query, level)
    }
}

/// Those of `elements` whose score for `query` is one of `levels`, by level in the order
/// of `levels`, and within a level in the order of `elements`.
pub open spec fn ranked_by(
    elements: Seq<ElementInfoView>,
    query: Seq<char>,
    levels: Seq<int>,
) -> Seq<ElementInfoView>
    decreases levels.len(),
{
    if levels.len() == 0 {
        Seq::<ElementInfoView>::empty()
    } else {
        ranked_by(elements, query, levels.drop_last()) + with_score(elements, query, levels.last())
    }
}

/// The elements that match `query`, those with a higher score first, and those with the
/// same score in the order of `elements`.
pub open spec fn ranked(elements: Seq<ElementInfoView>, query: Seq<char>) -> Seq<
    ElementInfoView,
> {
    ranked_by(elements, query, score_levels())
}

/// The elements among `elements` that match `query`, best first, and no more than `max`
/// of them.
pub open spec fn best_matches(elements: Seq<ElementInfoView>, query: Seq<char>, max: nat) -> Seq<
    ElementInfoView,
> {
    if ranked(elements, query).len() > max {
        ranked(elements, query).take(max as int)
    } else {
        ranked(elements, query)
    }
}

/// The score of `element` for a query whose lower-case form is `wanted`.
pub fn score_of(element: &ElementInfo, wanted: &Vec<char>) -> (score: u8)
    ensures
        score == score_for(element@, wanted@),
{
    let name = chars_of(to_lowercase(element.name.as_str()).as_str());
    let description = chars_of(to_lowercase(element.description.as_str()).as_str());
    let classification = chars_of(to_lowercase(element.classification.as_str()).as_str());
    let mut score: u8 = 0;
    if same_chars(&name, wanted) {
        score = score + 100;
    } else if text_contains(&name, wanted) {
        score = score + 50;
    }
    if text_contains(&description, wanted) {
        score = score + 20;
    }
    if text_contains(&classification, wanted) {
        score = score + 10;
    }
    score
}

fn levels() -> (list: Vec<u8>)
    ensures
        list@.len() == score_levels().len(),
        forall|k: int| 0 <= k < list@.len() ==> list@[k] as int == score_levels()[k],
{
    vec![130, 120, 110, 100, 80, 70, 60, 50, 30, 20, 10]
}

/// The elements among `elements` that match `query`, best first, and no more than
/// `max_results` of them.
pub fn rank_elements(elements: &Vec<ElementInfo>, query: &str, max_results: usize) -> (found: Vec<
    ElementInfo,
>)
    ensures
        element_views(found@) == best_matches(
            element_views(elements@),
            query@,
            max_results as nat,
        ),
{
    let wanted = chars_of(to_lowercase(query).as_str());
    let mut scores: Vec<u8> = Vec::new();
    let mut i: usize = 0;
    let ghost all = element_views(elements@);
    while i < elements.len()
        invariant
            i <= elements.len(),
            scores.len() == i,
            wanted@ == lowercase_of(query@),
            forall|k: int|
                0 <= k < i ==> (#[trigger] scores[k]) as int == match_score(
                    elements@[k]@,
                    query@,
                ),
        decreases elements.len() - i,
    {
        scores.push(score_of(&elements[i], &wanted));
        i = i + 1;
    }
    let order = levels();
    let mut found: Vec<ElementInfo> = Vec::new();
    let mut l: usize = 0;
    assert(score_levels().take(0) =~= Seq::<int>::empty());
    assert(element_views(found@) =~= ranked_by(all, query@, score_levels().take(0)));
    while l < order.len()
        invariant
            l <= order.len(),
            all == element_views(elements@),
            order@.len() == score_levels().len(),
            forall|k: int| 0 <= k < order@.len() ==> order@[k] as int == score_levels()[k],
            scores.len() == elements.len(),
            forall|k: int|
                0 <= k < elements.len() ==> (#[trigger] scores[k]) as int == match_score(
                    elements@[k]@,
                    query@,
                ),
            element_views(found@) == ranked_by(all, query@, score_levels().take(l as int)),
        decreases order.len() - l,
    {
        let level = order[l];
        let ghost before = element_views(found@);
        let mut j: usize = 0;
        assert(all.take(0) =~= Seq::<ElementInfoView>::empty());
        assert(element_views(found@) =~= before + with_score(all.take(0), query@, level as int));
        while j < elements.len()
            invariant
                j <= elements.len(),
                all == element_views(elements@),
                scores.len() == elements.len(),
                forall|k: int|
                    0 <= k < elements.len() ==> (#[trigger] scores[k]) as int == match_score(
                        elements@[k]@,
                        query@,
                    ),
                element_views(found@) == before + with_score(
                    all.take(j as int),
                    query@,
                    level as int,
                ),
            decreases elements.len() - j,
        {
            let ghost so_far = element_views(found@);
            proof {
                let grown = all.take(j + 1);
                assert(grown.drop_last() =~= all.take(j as int));
                assert(grown.last() == elements@[j as int]@);
            }
            if scores[j] == level {
                found.push(elements[j].clone());
                assert(element_views(found@) =~= so_far.push(elements@[j as int]@));
                assert(element_views(found@) =~= before + with_score(
                    all.take(j + 1),
                    query@,
                    level as int,
                ));
            }
            j = j + 1;
        }
        proof {
            assert(all.take(elements.len() as int) =~= all);
            let grown = score_levels().take(l + 1);
            assert(grown.drop_last() =~= score_levels().take(l as int));
            assert(grown.last() == level as int);
        }
        l = l + 1;
    }
    assert(score_levels().take(order.len() as int) =~= score_levels());
    if found.len() > max_results {
        found.truncate(max_results);
        assert(element_views(found@) =~= ranked(all, query@).take(max_results as int));
    }
    found
}

/// The elements among those `discovered` that match `query`, best first, and no more than
/// `max_results` of them; a discovery that failed is returned as it is.
pub fn search_elements(
    discovered: Result<Vec<ElementInfo>, GStreamerMcpError>,
    query: &str,
    max_results: usize,
) -> (result: Result<Vec<ElementInfo>, GStreamerMcpError>)
    ensures
        match discovered {
            Ok(elements) => result matches Ok(found) && element_views(found@) == best_matches(
                element_views(elements@),
                query@,
                max_results as nat,
            ),
            Err(error) => result == Err::<Vec<ElementInfo>, GStreamerMcpError>(error),
        },
{
    match discovered {
        Ok(elements) => Ok(rank_elements(&elements, query, max_results)),
        Err(error) => Err(error),
    }
}

/// Whether `text` passes the filter `wanted`, letter case apart: there is no filter, or
/// the text holds it.
pub open spec fn passes_filter(text: Seq<char>, wanted: Option<Seq<char>>) -> bool {
    match wanted {
        Some(part) => contains_text(lowercase_of(text), lowercase_of(part)),
        None => true,
    }
}

/// Those of `elements` whose name passes `name_filter` and whose classification passes
/// `category`, in the same order.
pub open spec fn kept_elements(
    elements: Seq<ElementInfoView>,
    name_filter: Option<Seq<char>>,
    category: Option<Seq<char>>,
) -> Seq<ElementInfoView>
    decreases elements.len(),
{
    if elements.len() == 0 {
        Seq::<ElementInfoView>::empty()
    } else if passes_filter(elements.last().name, name_filter) && passes_filter(
        elements.last().classification,
        category,
    ) {
        kept_elements(elements.drop_last(), name_filter, category).push(elements.last())
    } else {
        kept_elements(elements.drop_last(), name_filter, category)
    }
}

/// Those of `plugins` whose name passes `name_filter`, in the same order.
pub open spec fn kept_plugins(plugins: Seq<PluginInfoView>, name_filter: Option<Seq<char>>) -> Seq<
    PluginInfoView,
>
    decreases plugins.len(),
{
    if plugins.len() == 0 {
        Seq::<PluginInfoView>::empty()
    } else if passes_filter(plugins.last().name, name_filter) {
        kept_plugins(plugins.drop_last(), name_filter).push(plugins.last())
    } else {
        kept_plugins(plugins.drop_last(), name_filter)
    }
}

fn lowered_filter(wanted: &Option<String>) -> (lowered: Option<Vec<char>>)
    ensures
        match lowered {
            Some(part) => wanted is Some && part@ == lowercase_of(wanted->0@),
            None => wanted is None,
        },
{
    match wanted {
        Some(part) => Some(chars_of(to_lowercase(part.as_str()).as_str())),
        None => None,
    }
}

fn passes(text: &String, wanted: &Option<String>, lowered: &Option<Vec<char>>) -> (passed: bool)
    requires
        match *lowered {
            Some(part) => wanted is Some && part@ == lowercase_of(wanted->0@),
            None => wanted is None,
        },
    ensures
        passed == passes_filter(text@, optional_text(*wanted)),
{
    match lowered {
        Some(part) => {
            let hay = chars_of(to_lowercase(text.as_str()).as_str());
            text_contains(&hay, part)
        },
        None => true,
    }
}

/// The elements among `elements` whose name holds `name_filter` and whose classification
/// holds `category`, letter case apart; a filter that is not given lets every element
/// pass.
pub fn filter_elements(
    elements: &Vec<ElementInfo>,
    name_filter: &Option<String>,
    category: &Option<String>,
) -> (kept: Vec<ElementInfo>)
    ensures
        element_views(kept@) == kept_elements(
            element_views(elements@),
            optional_text(*name_filter),
            optional_text(*category),
        ),
{
    let name_part = lowered_filter(name_filter);
    let category_part = lowered_filter(category);
    let mut kept: Vec<ElementInfo> = Vec::new();
    let mut i: usize = 0;
    let ghost all = element_views(elements@);
    let ghost wanted_name = optional_text(*name_filter);
    let ghost wanted_category = optional_text(*category);
    assert(all.take(0) =~= Seq::<ElementInfoView>::empty());
    assert(element_views(kept@) =~= Seq::<ElementInfoView>::empty());
    while i < elements.len()
        invariant
            i <= elements.len(),
            all == element_views(elements@),
            wanted_name == optional_text(*name_filter),
            wanted_category == optional_text(*category),
            match name_part {
                Some(part) => name_filter is Some && part@ == lowercase_of(name_filter->0@),
                None => name_filter is None,
            },
            match category_part {
                Some(part) => category is Some && part@ == lowercase_of(category->0@),
                None => category is None,
            },
            element_views(kept@) == kept_elements(all.take(i as int), wanted_name, wanted_category),
        decreases elements.len() - i,
    {
        let ghost so_far = element_views(kept@);
        proof {
            let grown = all.take(i + 1);
            assert(grown.drop_last() =~= all.take(i as int));
            assert(grown.last() == elements@[i as int]@);
        }
        if passes(&elements[i].name, name_filter, &name_part) && passes(
            &elements[i].classification,
            category,
            &category_part,
        ) {
            kept.push(elements[i].clone());
            assert(element_views(kept@) =~= so_far.push(elements@[i as int]@));
        }
        i = i + 1;
    }
    assert(all.take(elements.len() as int) =~= all);
    kept
}

/// The plugins among `plugins` whose name holds `name_filter`, letter case apart; without
/// a filter, all of them.
pub fn filter_plugins(plugins: &Vec<PluginInfo>, name_filter: &Option<String>) -> (kept: Vec<
    PluginInfo,
>)
    ensures
        plugin_views(kept@) == kept_plugins(plugin_views(plugins@), optional_text(*name_filter)),
{
    let name_part = lowered_filter(name_filter);
    let mut kept: Vec<PluginInfo> = Vec::new();
    let mut i: usize = 0;
    let ghost all = plugin_views(plugins@);
    let ghost wanted_name = optional_text(*name_filter);
    assert(all.take(0) =~= Seq::<PluginInfoView>::empty());
    assert(plugin_views(kept@) =~= Seq::<PluginInfoView>::empty());
    while i < plugins.len()
        invariant
            i <= plugins.len(),
            all == plugin_views(plugins@),
            wanted_name == optional_text(*name_filter),
            match name_part {
                Some(part) => name_filter is Some && part@ == lowercase_of(name_filter->0@),
                None => name_filter is None,
            },
            plugin_views(kept@) == kept_plugins(all.take(i as int), wanted_name),
        decreases plugins.len() - i,
    {
        let ghost so_far = plugin_views(kept@);
        proof {
            let grown = all.take(i + 1);
            assert(grown.drop_last() =~= all.take(i as int));
            assert(grown.last() == plugins@[i as int]@);
        }
        if passes(&plugins[i].name, name_filter, &name_part) {
            kept.push(plugins[i].clone());
            assert(plugin_views(kept@) =~= so_far.push(plugins@[i as int]@));
        }
        i = i + 1;
    }
    assert(all.take(plugins.len() as int) =~= all);
    kept
}

/// The entry of a list of elements that shows `element`.
pub open spec fn element_entry(element: ElementInfoView) -> Seq<char> {
    "- "@ + element.name + " ("@ + element.description + ")\n  Plugin: "@ + element.plugin_name
        + ", Rank: "@ + element.rank + "\n"@
}

/// The entry of a list of search results that shows `element`.
pub open spec fn result_entry(element: ElementInfoView) -> Seq<char> {
    "- "@ + element.name + " ("@ + element.description + ")\n  Plugin: "@ + element.plugin_name
        + ", Classification: "@ + element.classification + "\n"@
}

/// The entries that show `elements`, one after the other, as search results or not.
pub open spec fn element_entries(elements: Seq<ElementInfoView>, as_results: bool) -> Seq<char>
    decreases elements.len(),
{
    if elements.len() == 0 {
        Seq::<char>::empty()
    } else {
        element_entries(elements.drop_last(), as_results) + if as_results {
            result_entry(elements.last())
        } else {
            element_entry(elements.last())
        }
    }
}

/// What is shown of a list of elements.
pub open spec fn elements_text(elements: Seq<ElementInfoView>) -> Seq<char> {
    if elements.len() == 0 {
        "No elements found matching the criteria."@
    } else {
        "Found "@ + decimal_digits(elements.len()) + " elements:\n\n"@ + element_entries(
            elements,
            false,
        )
    }
}

/// What is shown of the results of a search for `query`.
pub open spec fn search_text(elements: Seq<ElementInfoView>, query: Seq<char>) -> Seq<char> {
    if elements.len() == 0 {
        "No elements found matching '"@ + query + "'"@
    } else {
        "Found "@ + decimal_digits(elements.len()) + " elements matching '"@ + query + "':\n\n"@
            + element_entries(elements, true)
    }
}

fn show_entries(elements: &Vec<ElementInfo>, as_results: bool) -> (text: String)
    ensures
        text@ == element_entries(element_views(elements@), as_results),
{
    let mut text = String::new();
    let mut i: usize = 0;
    let ghost all = element_views(elements@);
    assert(all.take(0) =~= Seq::<ElementInfoView>::empty());
    while i < elements.len()
        invariant
            i <= elements.len(),
            all == element_views(elements@),
            text@ == element_entries(all.take(i as int), as_results),
        decreases elements.len() - i,
    {
        let ghost before = text@;
        proof {
            let grown = all.take(i + 1);
            assert(grown.drop_last() =~= all.take(i as int));
            assert(grown.last() == elements@[i as int]@);
        }
        let element = &elements[i];
        text.append("- ");
        text.append(element.name.as_str());
        text.append(" (");
        text.append(element.description.as_str());
        text.append(")\n  Plugin: ");
        text.append(element.plugin_name.as_str());
        if as_results {
            text.append(", Classification: ");
            text.append(element.classification.as_str());
            text.append("\n");
            assert(text@ =~= before + result_entry(elements@[i as int]@));
        } else {
            text.append(", Rank: ");
            text.append(element.rank.as_str());
            text.append("\n");
            assert(text@ =~= before + element_entry(elements@[i as int]@));
        }
        i = i + 1;
    }
    assert(all.take(elements.len() as int) =~= all);
    text
}

/// Shows a list of elements.
pub fn show_elements(elements: &Vec<ElementInfo>) -> (text: String)
    ensures
        text@ == elements_text(element_views(elements@)),
{
    if elements.len() == 0 {
        return "No elements found matching the criteria.".to_owned();
    }
    let mut text = "Found ".to_owned();
    text.append(unsigned_decimal(elements.len() as u64).as_str());
    text.append(" elements:\n\n");
    text.append(show_entries(elements, false).as_str());
    text
}

/// Shows the results of a search for `query`.
pub fn show_search(elements: &Vec<ElementInfo>, query: &str) -> (text: String)
    ensures
        text@ == search_text(element_views(elements@), query@),
{
    if elements.len() == 0 {
        let mut text = "No elements found matching '".to_owned();
        text.append(query);
        text.append("'");
        return text;
    }
    let mut text = "Found ".to_owned();
    text.append(unsigned_decimal(elements.len() as u64).as_str());
    text.append(" elements matching '");
    text.append(query);
    text.append("':\n\n");
    text.append(show_entries(elements, true).as_str());
    text
}

/// The entry of a list of plugins that shows `plugin`.
pub open spec fn plugin_entry(plugin: PluginInfoView) -> Seq<char> {
    "- "@ + plugin.name + " (v"@ + plugin.version + ") - "@ + plugin.description
        + "\n  License: "@ + plugin.license + ", Source: "@ + plugin.source + "\n"@ + (
    if plugin.elements.len() > 0 {
        "  Elements: "@ + joined(plugin.elements, ", "@) + "\n"@
    } else {
        Seq::<char>::empty()
    }) + "\n"@
}

/// The entries that show `plugins`, one after the other.
pub open spec fn plugin_entries(plugins: Seq<PluginInfoView>) -> Seq<char>
    decreases plugins.len(),
{
    if plugins.len() == 0 {
        Seq::<char>::empty()
    } else {
        plugin_entries(plugins.drop_last()) + plugin_entry(plugins.last())
    }
}

/// What is shown of a list of plugins.
pub open spec fn plugins_text(plugins: Seq<PluginInfoView>) -> Seq<char> {
    if plugins.len() == 0 {
        "No plugins found matching the criteria."@
    } else {
        "Found "@ + decimal_digits(plugins.len()) + " plugins:\n\n"@ + plugin_entries(plugins)
    }
}

fn show_plugin(plugin: &PluginInfo) -> (text: String)
    ensures
        text@ == plugin_entry(plugin@),
{
    let mut text = "- ".to_owned();
    text.append(plugin.name.as_str());
    text.append(" (v");
    text.append(plugin.version.as_str());
    text.append(") - ");
    text.append(plugin.description.as_str());
    text.append("\n  License: ");
    text.append(plugin.license.as_str());
    text.append(", Source: ");
    text.append(plugin.source.as_str());
    text.append("\n");
    if plugin.elements.len() > 0 {
        assert(texts_of(plugin.elements@).skip(0) =~= texts_of(plugin.elements@));
        text.append("  Elements: ");
        text.append(join(&plugin.elements, 0, ", ").as_str());
        text.append("\n");
    }
    text.append("\n");
    text
}

/// Shows a list of plugins.
pub fn show_plugins(plugins: &Vec<PluginInfo>) -> (text: String)
    ensures
        text@ == plugins_text(plugin_views(plugins@)),
{
    if plugins.len() == 0 {
        return "No plugins found matching the criteria.".to_owned();
    }
    let mut text = "Found ".to_owned();
    text.append(unsigned_decimal(plugins.len() as u64).as_str());
    text.append(" plugins:\n\n");
    let ghost head = text@;
    let ghost all = plugin_views(plugins@);
    assert(all.take(0) =~= Seq::<PluginInfoView>::empty());
    assert(text@ =~= head + plugin_entries(all.take(0)));
    let mut i: usize = 0;
    while i < plugins.len()
        invariant
            i <= plugins.len(),
            all == plugin_views(plugins@),
            text@ == head + plugin_entries(all.take(i as int)),
        decreases plugins.len() - i,
    {
        proof {
            let grown = all.take(i + 1);
            assert(grown.drop_last() =~= all.take(i as int));
            assert(grown.last() == plugins@[i as int]@);
        }
        text.append(show_plugin(&plugins[i]).as_str());
        assert(text@ =~= head + (plugin_entries(all.take(i as int)) + plugin_entry(
            plugins@[i as int]@,
        )));
        i = i + 1;
    }
    assert(all.take(plugins.len() as int) =~= all);
    text
}

/// The lines that show one property of an element.
pub open spec fn property_lines(property: PropertyInfo) -> Seq<char> {
    "  "@ + property.name@ + " ("@ + property.value_type@ + ") ["@ + joined(
        texts_of(property.flags@),
        ", "@,
    ) + "]\n    "@ + property.description@ + "\n"@ + (match property.default_value {
        Some(value) => "    Default: "@ + value@ + "\n"@,
        None => Seq::<char>::empty(),
    })
}

/// The lines that show properties, one after the other.
pub open spec fn properties_lines(properties: Seq<PropertyInfo>) -> Seq<char>
    decreases properties.len(),
{
    if properties.len() == 0 {
        Seq::<char>::empty()
    } else {
        properties_lines(properties.drop_last()) + property_lines(properties.last())
    }
}

/// The lines that show one pad template of an element.
pub open spec fn pad_lines(pad: PadTemplateInfo) -> Seq<char> {
    "  "@ + pad.name@ + " ("@ + pad.direction@ + ", "@ + pad.presence@ + ")\n    Caps: "@
        + pad.caps@ + "\n"@
}

/// The lines that show pad templates, one after the other.
pub open spec fn pads_lines(pads: Seq<PadTemplateInfo>) -> Seq<char>
    decreases pads.len(),
{
    if pads.len() == 0 {
        Seq::<char>::empty()
    } else {
        pads_lines(pads.drop_last()) + pad_lines(pads.last())
    }
}

/// The lines that show one signal of an element.
pub open spec fn signal_lines(signal: SignalInfo) -> Seq<char> {
    "  "@ + signal.name@ + " -> "@ + signal.return_type@ + "\n    Parameters: "@ + joined(
        texts_of(signal.parameters@),
        ", "@,
    ) + "\n"@
}

/// The lines that show signals, one after the other.
pub open spec fn signals_lines(signals: Seq<SignalInfo>) -> Seq<char>
    decreases signals.len(),
{
    if signals.len() == 0 {
        Seq::<char>::empty()
    } else {
        signals_lines(signals.drop_last()) + signal_lines(signals.last())
    }
}

/// The first lines of what is shown of an element in detail.
pub open spec fn details_head(info: ElementDetailedInfo) -> Seq<char> {
    "Element: "@ + info.name@ + "\nDescription: "@ + info.description@ + "\nPlugin: "@
        + info.plugin_name@ + "\nRank: "@ + info.rank@ + "\nClassification: "@
        + info.classification@ + "\n\n"@
}

/// The part of what is shown of an element that shows its properties, where it has any.
pub open spec fn properties_part(properties: Seq<PropertyInfo>) -> Seq<char> {
    if properties.len() > 0 {
        "Properties:\n"@ + properties_lines(properties) + "\n"@
    } else {
        Seq::<char>::empty()
    }
}

/// The part of what is shown of an element that shows its pad templates, where it has
/// any.
pub open spec fn pads_part(pads: Seq<PadTemplateInfo>) -> Seq<char> {
    if pads.len() > 0 {
        "Pad Templates:\n"@ + pads_lines(pads) + "\n"@
    } else {
        Seq::<char>::empty()
    }
}

/// The part of what is shown of an element that shows its signals, where it has any.
pub open spec fn signals_part(signals: Seq<SignalInfo>) -> Seq<char> {
    if signals.len() > 0 {
        "Signals:\n"@ + signals_lines(signals)
    } else {
        Seq::<char>::empty()
    }
}

/// What is shown of an element in detail.
pub open spec fn details_text(info: ElementDetailedInfo) -> Seq<char> {
    details_head(info) + properties_part(info.properties@) + pads_part(info.pad_templates@)
        + signals_part(info.signals@)
}

fn show_head(info: &ElementDetailedInfo) -> (text: String)
    ensures
        text@ == details_head(*info),
{
    let mut text = "Element: ".to_owned();
    text.append(info.name.as_str());
    text.append("\nDescription: ");
    text.append(info.description.as_str());
    text.append("\nPlugin: ");
    text.append(info.plugin_name.as_str());
    text.append("\nRank: ");
    text.append(info.rank.as_str());
    text.append("\nClassification: ");
    text.append(info.classification.as_str());
    text.append("\n\n");
    text
}

fn show_property(property: &PropertyInfo) -> (text: String)
    ensures
        text@ == property_lines(*property),
{
    let mut text = "  ".to_owned();
    text.append(property.name.as_str());
    text.append(" (");
    text.append(property.value_type.as_str());
    text.append(") [");
    assert(texts_of(property.flags@).skip(0) =~= texts_of(property.flags@));
    text.append(join(&property.flags, 0, ", ").as_str());
    text.append("]\n    ");
    text.append(property.description.as_str());
    text.append("\n");
    match &property.default_value {
        Some(value) => {
            text.append("    Default: ");
            text.append(value.as_str());
            text.append("\n");
        },
        None => {},
    }
    text
}

fn show_properties(properties: &Vec<PropertyInfo>) -> (text: String)
    ensures
        text@ == properties_part(properties@),
{
    if properties.len() == 0 {
        return String::new();
    }
    let mut text = "Properties:\n".to_owned();
    let ghost head = text@;
    assert(properties@.take(0) =~= Seq::<PropertyInfo>::empty());
    assert(text@ =~= head + properties_lines(properties@.take(0)));
    let mut i: usize = 0;
    while i < properties.len()
        invariant
            i <= properties.len(),
            text@ == head + properties_lines(properties@.take(i as int)),
        decreases properties.len() - i,
    {
        proof {
            let grown = properties@.take(i + 1);
            assert(grown.drop_last() =~= properties@.take(i as int));
            assert(grown.last() == properties@[i as int]);
        }
        text.append(show_property(&properties[i]).as_str());
        assert(text@ =~= head + (properties_lines(properties@.take(i as int)) + property_lines(
            properties@[i as int],
        )));
        i = i + 1;
    }
    assert(properties@.take(properties.len() as int) =~= properties@);
    text.append("\n");
    text
}

fn show_pads(pads: &Vec<PadTemplateInfo>) -> (text: String)
    ensures
        text@ == pads_part(pads@),
{
    if pads.len() == 0 {
        return String::new();
    }
    let mut text = "Pad Templates:\n".to_owned();
    let ghost head = text@;
    assert(pads@.take(0) =~= Seq::<PadTemplateInfo>::empty());
    assert(text@ =~= head + pads_lines(pads@.take(0)));
    let mut i: usize = 0;
    while i < pads.len()
        invariant
            i <= pads.len(),
            text@ == head + pads_lines(pads@.take(i as int)),
        decreases pads.len() - i,
    {
        let ghost before = text@;
        proof {
            let grown = pads@.take(i + 1);
            assert(grown.drop_last() =~= pads@.take(i as int));
            assert(grown.last() == pads@[i as int]);
        }
        let pad = &pads[i];
        text.append("  ");
        text.append(pad.name.as_str());
        text.append(" (");
        text.append(pad.direction.as_str());
        text.append(", ");
        text.append(pad.presence.as_str());
        text.append(")\n    Caps: ");
        text.append(pad.caps.as_str());
        text.append("\n");
        assert(text@ =~= before + pad_lines(pads@[i as int]));
        assert(text@ =~= head + (pads_lines(pads@.take(i as int)) + pad_lines(pads@[i as int])));
        i = i + 1;
    }
    assert(pads@.take(pads.len() as int) =~= pads@);
    text.append("\n");
    text
}

fn show_signals(signals: &Vec<SignalInfo>) -> (text: String)
    ensures
        text@ == signals_part(signals@),
{
    if signals.len() == 0 {
        return String::new();
    }
    let mut text = "Signals:\n".to_owned();
    let ghost head = text@;
    assert(signals@.take(0) =~= Seq::<SignalInfo>::empty());
    assert(text@ =~= head + signals_lines(signals@.take(0)));
    let mut i: usize = 0;
    while i < signals.len()
        invariant
            i <= signals.len(),
            text@ == head + signals_lines(signals@.take(i as int)),
        decreases signals.len() - i,
    {
        let ghost before = text@;
        proof {
            let grown = signals@.take(i + 1);
            assert(grown.drop_last() =~= signals@.take(i as int));
            assert(grown.last() == signals@[i as int]);
        }
        let signal = &signals[i];
        text.append("  ");
        text.append(signal.name.as_str());
        text.append(" -> ");
        text.append(signal.return_type.as_str());
        text.append("\n    Parameters: ");
        assert(texts_of(signal.parameters@).skip(0) =~= texts_of(signal.parameters@));
        text.append(join(&signal.parameters, 0, ", ").as_str());
        text.append("\n");
        assert(text@ =~= before + signal_lines(signals@[i as int]));
        assert(text@ =~= head + (signals_lines(signals@.take(i as int)) + signal_lines(
            signals@[i as int],
        )));
        i = i + 1;
    }
    assert(signals@.take(signals.len() as int) =~= signals@);
    text
}

/// Shows an element in detail.
pub fn show_details(info: &ElementDetailedInfo) -> (text: String)
    ensures
        text@ == details_text(*info),
{
    let mut text = show_head(info);
    text.append(show_properties(&info.properties).as_str());
    text.append(show_pads(&info.pad_templates).as_str());
    text.append(show_signals(&info.signals).as_str());
    text
}

/// The names of the flags of a property that are set, in the order in which they are
/// shown: `readable`, `writable`, `construct`, `construct-only`.
pub open spec fn flag_names(
    readable: bool,
    writable: bool,
    construct: bool,
    construct_only: bool,
) -> Seq<Seq<char>> {
    (if readable {
        seq!["readable"@]
    } else {
        Seq::<Seq<char>>::empty()
    }) + (if writable {
        seq!["writable"@]
    } else {
        Seq::<Seq<char>>::empty()
    }) + (if construct {
        seq!["construct"@]
    } else {
        Seq::<Seq<char>>::empty()
    }) + (if construct_only {
        seq!["construct-only"@]
    } else {
        Seq::<Seq<char>>::empty()
    })
}

/// The names of the flags of a property that are set.
pub fn property_flags(readable: bool, writable: bool, construct: bool, construct_only: bool) -> (
    flags: Vec<String>)
    ensures
        texts_of(flags@) == flag_names(readable, writable, construct, construct_only),
{
    let mut flags: Vec<String> = Vec::new();
    if readable {
        flags.push("readable".to_owned());
    }
    if writable {
        flags.push("writable".to_owned());
    }
    if construct {
        flags.push("construct".to_owned());
    }
    if construct_only {
        flags.push("construct-only".to_owned());
    }
    assert(texts_of(flags@) =~= flag_names(readable, writable, construct, construct_only));
    flags
}

/// The names of `elements`, in the same order.
pub open spec fn element_names(elements: Seq<ElementInfoView>) -> Seq<Seq<char>> {
    Seq::new(elements.len(), |i: int| elements[i].name)
}

/// The names of `plugins`, in the same order.
pub open spec fn plugin_names(plugins: Seq<PluginInfoView>) -> Seq<Seq<char>> {
    Seq::new(plugins.len(), |i: int| plugins[i].name)
}

/// The names of `properties`, in the same order.
pub open spec fn property_names(properties: Seq<PropertyInfo>) -> Seq<Seq<char>> {
    Seq::new(properties.len(), |i: int| properties[i].name@)
}

/// The elements that the engine's registry was found to hold, in the order of their
/// names; a discovery that failed is returned as it is.
pub fn discover_all_elements(found: Result<Vec<ElementInfo>, GStreamerMcpError>) -> (result:
    Result<Vec<ElementInfo>, GStreamerMcpError>)
    ensures
        match found {
            Ok(elements) => result matches Ok(sorted) && is_sorting(
                element_names(element_views(elements@)),
                element_views(elements@),
                element_views(sorted@),
            ),
            Err(error) => result == Err::<Vec<ElementInfo>, GStreamerMcpError>(error),
        },
{
    let elements = match found {
        Ok(elements) => elements,
        Err(error) => {
            return Err(error);
        },
    };
    let mut names: Vec<String> = Vec::new();
    let mut i: usize = 0;
    while i < elements.len()
        invariant
            i <= elements.len(),
            names.len() == i,
            forall|k: int| 0 <= k < i ==> (#[trigger] names[k])@ == elements@[k].name@,
        decreases elements.len() - i,
    {
        names.push(elements[i].name.clone());
        i = i + 1;
    }
    assert(texts_of(names@) =~= element_names(element_views(elements@)));
    let order = sorted_order(&names);
    let mut sorted: Vec<ElementInfo> = Vec::new();
    let mut k: usize = 0;
    while k < order.len()
        invariant
            k <= order.len(),
            order.len() == elements.len(),
            forall|j: int| 0 <= j < order.len() ==> 0 <= #[trigger] order[j] < elements.len(),
            sorted.len() == k,
            forall|j: int| 0 <= j < k ==> (#[trigger] sorted[j])@ == elements@[order[j] as int]@,
        decreases order.len() - k,
    {
        sorted.push(elements[order[k]].clone());
        k = k + 1;
    }
    assert(element_views(sorted@) =~= arranged(element_views(elements@), order@));
    Ok(sorted)
}

/// The plugins that the engine's registry was found to hold, in the order of their names;
/// a discovery that failed is returned as it is.
pub fn discover_all_plugins(found: Result<Vec<PluginInfo>, GStreamerMcpError>) -> (result: Result<
    Vec<PluginInfo>,
    GStreamerMcpError,
>)
    ensures
        match found {
            Ok(plugins) => result matches Ok(sorted) && is_sorting(
                plugin_names(plugin_views(plugins@)),
                plugin_views(plugins@),
                plugin_views(sorted@),
            ),
            Err(error) => result == Err::<Vec<PluginInfo>, GStreamerMcpError>(error),
        },
{
    let plugins = match found {
        Ok(plugins) => plugins,
        Err(error) => {
            return Err(error);
        },
    };
    let mut names: Vec<String> = Vec::new();
    let mut i: usize = 0;
    while i < plugins.len()
        invariant
            i <= plugins.len(),
            names.len() == i,
            forall|k: int| 0 <= k < i ==> (#[trigger] names[k])@ == plugins@[k].name@,
        decreases plugins.len() - i,
    {
        names.push(plugins[i].name.clone());
        i = i + 1;
    }
    assert(texts_of(names@) =~= plugin_names(plugin_views(plugins@)));
    let order = sorted_order(&names);
    let mut sorted: Vec<PluginInfo> = Vec::new();
    let mut k: usize = 0;
    while k < order.len()
        invariant
            k <= order.len(),
            order.len() == plugins.len(),
            forall|j: int| 0 <= j < order.len() ==> 0 <= #[trigger] order[j] < plugins.len(),
            sorted.len() == k,
            forall|j: int| 0 <= j < k ==> (#[trigger] sorted[j])@ == plugins@[order[j] as int]@,
        decreases order.len() - k,
    {
        sorted.push(plugins[order[k]].clone());
        k = k + 1;
    }
    assert(plugin_views(sorted@) =~= arranged(plugin_views(plugins@), order@));
    Ok(sorted)
}

/// The properties `properties` in the order of their names.
pub fn sort_properties(properties: Vec<PropertyInfo>) -> (sorted: Vec<PropertyInfo>)
    ensures
        is_sorting(property_names(properties@), properties@, sorted@),
{
    let mut names: Vec<String> = Vec::new();
    let mut i: usize = 0;
    while i < properties.len()
        invariant
            i <= properties.len(),
            names.len() == i,
            forall|k: int| 0 <= k < i ==> (#[trigger] names[k])@ == properties@[k].name@,
        decreases properties.len() - i,
    {
        names.push(properties[i].name.clone());
        i = i + 1;
    }
    assert(texts_of(names@) =~= property_names(properties@));
    let order = sorted_order(&names);
    let ghost original = properties@;
    // Each property waits in its slot until its turn comes.
    let mut slots: Vec<Option<PropertyInfo>> = Vec::new();
    let mut rest = properties;
    while rest.len() > 0
        invariant
            slots.len() + rest.len() == original.len(),
            forall|j: int| 0 <= j < rest.len() ==> #[trigger] rest[j] == original[j],
            forall|j: int|
                rest.len() <= j < original.len() ==> #[trigger] slots[original.len() - 1 - j]
                    == Some(original[j]),
        decreases rest.len(),
    {
        let last = rest.pop();
        slots.push(last);
    }
    let count = slots.len();
    let mut sorted: Vec<PropertyInfo> = Vec::new();
    let mut k: usize = 0;
    while k < order.len()
        invariant
            k <= order.len(),
            count == original.len(),
            slots.len() == count,
            order.len() == original.len(),
            is_sorted_order(property_names(original), order@),
            sorted.len() == k,
            forall|j: int| 0 <= j < k ==> #[trigger] sorted[j] == original[order[j] as int],
            forall|l: int|
                k <= l < order.len() ==> slots[count - 1 - (#[trigger] order[l])] == Some(
                    original[order[l] as int],
                ),
        decreases order.len() - k,
    {
        let at = count - 1 - order[k];
        let ghost before = slots@;
        let item = slots[at].take();
        proof {
            assert forall|l: int| k + 1 <= l < order.len() implies slots[count - 1
                - (#[trigger] order[l])] == Some(original[order[l] as int]) by {
                lemma_places_differ(property_names(original), order@, k as int, l);
                assert(slots[count - 1 - order[l]] == before[count - 1 - order[l]]);
            }
        }
        match item {
            Some(property) => {
                sorted.push(property);
            },
            None => {},
        }
        k = k + 1;
    }
    assert(sorted@ =~= arranged(original, order@));
    sorted
}

proof fn lemma_places_differ(names: Seq<Seq<char>>, order: Seq<usize>, k: int, l: int)
    requires
        is_sorted_order(names, order),
        0 <= k < l < order.len(),
    ensures
        order[k] != order[l],
{
    lemma_text_order_is_total(names[order[k] as int], names[order[l] as int]);
}

/// What the engine told of an element, as it told it.
#[derive(Debug)]
pub struct ElementReport {
    pub description: String,
    /// The plugin that provides the element, where one was found.
    pub plugin_name: Option<String>,
    pub rank: String,
    pub classification: String,
    pub properties: Vec<PropertyInfo>,
    pub pad_templates: Vec<PadTemplateInfo>,
    pub signals: Vec<SignalInfo>,
}

/// What the engine answered when asked about an element.
#[derive(Debug)]
pub enum InspectOutcome {
    /// The engine could not be started; holds its words.
    NotInitialized(String),
    /// The engine knows no element of the name.
    NoSuchElement,
    /// The engine knows the element and could not make one; holds its words.
    BuildFailed(String),
    /// The engine made the element and told of it.
    Found(ElementReport),
}

/// The details of the element named `element_name`, when the engine answered `outcome`:
/// its properties in the order of their names, and `unknown` for its plugin where none was
/// found. Fails where the engine did not start, does not know the element, or could not
/// make one.
pub fn inspect_element(element_name: &str, outcome: InspectOutcome) -> (result: Result<
    ElementDetailedInfo,
    GStreamerMcpError,
>)
    ensures
        match outcome {
            InspectOutcome::NotInitialized(detail) => result matches Err(
                GStreamerMcpError::GStreamerInit(text),
            ) && text@ == detail@,
            InspectOutcome::NoSuchElement => result matches Err(
                GStreamerMcpError::ElementNotFound(text),
            ) && text@ == element_name@,
            InspectOutcome::BuildFailed(detail) => result matches Err(
                GStreamerMcpError::ElementNotFound(text),
            ) && text@ == element_name@ + ": "@ + detail@,
            InspectOutcome::Found(report) => {
                &&& result matches Ok(info)
                &&& info.name@ == element_name@
                &&& info.description@ == report.description@
                &&& info.plugin_name@ == match report.plugin_name {
                    Some(name) => name@,
                    None => "unknown"@,
                }
                &&& info.rank@ == report.rank@
                &&& info.classification@ == report.classification@
                &&& is_sorting(
                    property_names(report.properties@),
                    report.properties@,
                    info.properties@,
                )
                &&& info.pad_templates == report.pad_templates
                &&& info.signals == report.signals
            },
        },
{
    match outcome {
        InspectOutcome::NotInitialized(detail) => Err(GStreamerMcpError::GStreamerInit(detail)),
        InspectOutcome::NoSuchElement => Err(
            GStreamerMcpError::ElementNotFound(element_name.to_owned()),
        ),
        InspectOutcome::BuildFailed(detail) => {
            let mut text = element_name.to_owned();
            text.append(": ");
            text.append(detail.as_str());
            Err(GStreamerMcpError::ElementNotFound(text))
        },
        InspectOutcome::Found(report) => Ok(
            ElementDetailedInfo {
                name: element_name.to_owned(),
                description: report.description,
                plugin_name: match report.plugin_name {
                    Some(name) => name,
                    None => "unknown".to_owned(),
                },
                rank: report.rank,
                classification: report.classification,
                properties: sort_properties(report.properties),
                pad_templates: report.pad_templates,
                signals: report.signals,
            },
        ),
    }
}

/// Whether the engine was started, and how that went. The engine is started at most once:
/// what the first attempt gave is kept, a failure too.
pub struct EngineStartup {
    attempt: Option<Result<(), String>>,
}

impl EngineStartup {
    /// What the first attempt to start the engine gave: nothing before it was made, and
    /// after it success or the engine's words about its failure.
    pub closed spec fn first_attempt(&self) -> Option<Result<(), Seq<char>>> {
        match self.attempt {
            Some(Ok(_)) => Some(Ok(())),
            Some(Err(detail)) => Some(Err(detail@)),
            None => None,
        }
    }

    /// The engine before any attempt to start it.
    pub fn new() -> (startup: Self)
        ensures
            startup.first_attempt() is None,
    {
        EngineStartup { attempt: None }
    }

    /// Whether the engine has yet to be started: only before the first attempt.
    pub fn must_start(&self) -> (needed: bool)
        ensures
            needed == self.first_attempt() is None,
    {
        self.attempt.is_none()
    }
}

/// Makes sure that the engine was started: `started` tells how the attempt went that was
/// made for this call, and counts only where none was made before. Every call returns what
/// the first attempt gave, a failure as often as it is asked for.
pub fn ensure_gstreamer_initialized(startup: &mut EngineStartup, started: Result<(), String>) -> (result:
    Result<(), GStreamerMcpError>)
    ensures
        final(startup).first_attempt() == Some(
            match old(startup).first_attempt() {
                Some(kept) => kept,
                None => match started {
                    Ok(_) => Ok(()),
                    Err(detail) => Err(detail@),
                },
            },
        ),
        match final(startup).first_attempt()->0 {
            Ok(_) => result is Ok,
            Err(detail) => result matches Err(GStreamerMcpError::GStreamerInit(text)) && text@
                == detail,
        },
{
    if startup.attempt.is_none() {
        startup.attempt = Some(started);
    }
    match &startup.attempt {
        Some(Err(detail)) => Err(GStreamerMcpError::GStreamerInit(detail.clone())),
        _ => Ok(()),
    }
}

} // verus!
