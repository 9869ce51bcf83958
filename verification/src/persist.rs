//! The persisted form of a bundle: one JSON object that holds the version
//! and, for each model, its whole state. Numbers are written as the
//! fixed-point integers that the models hold.

use vstd::prelude::*;
use crate::boosting::{BoostingModel, SimpleGradientBoosting};
use crate::bundle::{create_default_model, default_bundle, BundleModel, ModelBundle};
use crate::document::{
    list_model, member_from, members_model, parse_text, parsed_text, render_text, rendered_text,
    Json, JsonModel, MAX_NESTING,
};
use crate::fixed::SCALE;
use crate::forest::SimpleRandomForest;
use crate::tree::DecisionTree;

verus! {

/// Which part of a document does not have the shape of a bundle.
#[derive(Debug, Clone, Copy, PartialEq, Eq)]
pub enum FormatError {
    /// The version is missing or is not a string.
    Version,
    /// The VMAF model is missing or ill-formed.
    VmafModel,
    /// The PSNR model is missing or ill-formed.
    PsnrModel,
    /// The cost model is missing or ill-formed.
    CostModel,
    /// The CO2 model is missing or ill-formed.
    Co2Model,
}

/// Why no bundle could be loaded.
#[derive(Debug, Clone, PartialEq, Eq)]
pub enum LoadError {
    /// The stored data could not be read; the text says why.
    Storage(String),
    /// The stored text is not JSON; the text is the parser's message.
    Syntax(String),
    /// The stored document is JSON but not a bundle.
    Format(FormatError),
}

/// Why a bundle could not be written.
#[derive(Debug, Clone, PartialEq, Eq)]
pub enum SaveError {
    /// A model has more units than the document can count.
    TooManyUnits,
    /// The document could not be rendered; the text is the serializer's
    /// message.
    Render(String),
    /// The rendered text does not read back as the bundle.
    Unfaithful,
}

/// What was found where a bundle is kept.
#[derive(Debug, Clone, PartialEq, Eq)]
pub enum StoredModel {
    /// Nothing is stored there.
    Missing,
    /// Something is stored there but could not be read; the text says why.
    Unreadable(String),
    /// The stored text.
    Text(String),
}

/// The document for one regression unit.
pub open spec fn encoded_tree(t: DecisionTree) -> JsonModel {
    JsonModel::Record(
        seq![
            ("intercept"@, JsonModel::Number(Some(t.intercept))),
            (
                "weights"@,
                JsonModel::List(Seq::new(6, |i: int| JsonModel::Number(Some(t.weights[i])))),
            ),
        ],
    )
}

/// The document for a sequence of regression units.
pub open spec fn encoded_trees(ts: Seq<DecisionTree>) -> JsonModel {
    JsonModel::List(Seq::new(ts.len(), |i: int| encoded_tree(ts[i])))
}

/// The document for an ensemble: its units and their number.
pub open spec fn encoded_forest(f: Seq<DecisionTree>) -> JsonModel {
    JsonModel::Record(
        seq![
            ("trees"@, encoded_trees(f)),
            ("n_trees"@, JsonModel::Number(Some(f.len() as i64))),
        ],
    )
}

/// The document for a boosting model.
pub open spec fn encoded_boosting(m: BoostingModel) -> JsonModel {
    JsonModel::Record(
        seq![
            ("base_prediction"@, JsonModel::Number(Some(m.base_prediction))),
            ("trees"@, encoded_trees(m.trees)),
            ("learning_rate"@, JsonModel::Number(Some(m.learning_rate))),
        ],
    )
}

/// The document for a bundle.
pub open spec fn encoded_bundle(b: BundleModel) -> JsonModel {
    JsonModel::Record(
        seq![
            ("version"@, JsonModel::Text(b.version)),
            ("vmaf_model"@, encoded_forest(b.vmaf_model)),
            ("psnr_model"@, encoded_forest(b.psnr_model)),
            ("cost_model"@, encoded_boosting(b.cost_model)),
            ("co2_model"@, encoded_boosting(b.co2_model)),
        ],
    )
}

/// Whether the document can count the units of both ensembles.
pub open spec fn encodable(b: BundleModel) -> bool {
    b.vmaf_model.len() <= i64::MAX && b.psnr_model.len() <= i64::MAX
}

/// The integer that member `name` of `d` holds, where it holds one.
pub open spec fn integer_member(d: JsonModel, name: Seq<char>) -> Option<i64> {
    match d.member(name) {
        Some(v) => v.integer(),
        None => None,
    }
}

/// The items of the list that member `name` of `d` holds, where it holds
/// one.
pub open spec fn list_member(d: JsonModel, name: Seq<char>) -> Option<Seq<JsonModel>> {
    match d.member(name) {
        Some(v) => v.items(),
        None => None,
    }
}

/// The regression unit that a document stands for: an object with an integer
/// `intercept` and a list `weights` of exactly six integers.
pub open spec fn decoded_tree(d: JsonModel) -> Option<DecisionTree> {
    match (integer_member(d, "intercept"@), list_member(d, "weights"@)) {
        (Some(intercept), Some(w)) => if w.len() == 6 && w[0].integer() is Some
            && w[1].integer() is Some && w[2].integer() is Some && w[3].integer() is Some
            && w[4].integer() is Some && w[5].integer() is Some {
            Some(
                DecisionTree {
                    intercept,
                    weights: [
                        w[0].integer()->0,
                        w[1].integer()->0,
                        w[2].integer()->0,
                        w[3].integer()->0,
                        w[4].integer()->0,
                        w[5].integer()->0,
                    ],
                },
            )
        } else {
            None
        },
        _ => None,
    }
}

/// The regression units that a list of documents stands for, where every
/// item stands for one.
pub open spec fn decoded_trees(items: Seq<JsonModel>) -> Option<Seq<DecisionTree>> {
    if forall|k: int| 0 <= k < items.len() ==> (#[trigger] decoded_tree(items[k])) is Some {
        Some(Seq::new(items.len(), |k: int| decoded_tree(items[k])->0))
    } else {
        None
    }
}

/// The units that member `trees` of `d` stands for.
pub open spec fn trees_member(d: JsonModel) -> Option<Seq<DecisionTree>> {
    match list_member(d, "trees"@) {
        Some(items) => decoded_trees(items),
        None => None,
    }
}

/// The ensemble that a document stands for: an object with a list `trees` of
/// units and an integer `n_trees` that is their number.
pub open spec fn decoded_forest(d: JsonModel) -> Option<Seq<DecisionTree>> {
    match (trees_member(d), integer_member(d, "n_trees"@)) {
        (Some(trees), Some(n)) => if n == trees.len() {
            Some(trees)
        } else {
            None
        },
        _ => None,
    }
}

/// The boosting model that a document stands for: an object with an integer
/// `base_prediction`, a list `trees` of units and an integer `learning_rate`
/// within `(0, 1]`.
pub open spec fn decoded_boosting(d: JsonModel) -> Option<BoostingModel> {
    match (
        integer_member(d, "base_prediction"@),
        trees_member(d),
        integer_member(d, "learning_rate"@),
    ) {
        (Some(base_prediction), Some(trees), Some(learning_rate)) => if 0 < learning_rate
            <= SCALE {
            Some(BoostingModel { base_prediction, trees, learning_rate })
        } else {
            None
        },
        _ => None,
    }
}

/// The model that member `name` of `d` stands for as an ensemble.
pub open spec fn forest_member(d: JsonModel, name: Seq<char>) -> Option<Seq<DecisionTree>> {
    match d.member(name) {
        Some(v) => decoded_forest(v),
        None => None,
    }
}

/// The model that member `name` of `d` stands for as a boosting model.
pub open spec fn boosting_member(d: JsonModel, name: Seq<char>) -> Option<BoostingModel> {
    match d.member(name) {
        Some(v) => decoded_boosting(v),
        None => None,
    }
}

/// The text that member `version` of `d` holds, where it holds one.
pub open spec fn version_member(d: JsonModel) -> Option<Seq<char>> {
    match d.member("version"@) {
        Some(v) => v.text(),
        None => None,
    }
}

/// The bundle that a document stands for, or the first part, in the order
/// version, VMAF, PSNR, cost, CO2, that is missing or ill-formed.
pub open spec fn decoded_bundle(d: JsonModel) -> Result<BundleModel, FormatError> {
    if version_member(d) is None {
        Err(FormatError::Version)
    } else if forest_member(d, "vmaf_model"@) is None {
        Err(FormatError::VmafModel)
    } else if forest_member(d, "psnr_model"@) is None {
        Err(FormatError::PsnrModel)
    } else if boosting_member(d, "cost_model"@) is None {
        Err(FormatError::CostModel)
    } else if boosting_member(d, "co2_model"@) is None {
        Err(FormatError::Co2Model)
    } else {
        Ok(
            BundleModel {
                version: version_member(d)->0,
                vmaf_model: forest_member(d, "vmaf_model"@)->0,
                psnr_model: forest_member(d, "psnr_model"@)->0,
                cost_model: boosting_member(d, "cost_model"@)->0,
                co2_model: boosting_member(d, "co2_model"@)->0,
            },
        )
    }
}

/// The document of a regression unit is nested two deep.
proof fn lemma_tree_depth(t: DecisionTree)
    ensures
        encoded_tree(t).within_depth(2),
{
    reveal_with_fuel(JsonModel::within_depth, 3);
}

/// The document of a sequence of regression units is nested three deep.
proof fn lemma_trees_depth(ts: Seq<DecisionTree>)
    ensures
        encoded_trees(ts).within_depth(3),
{
    let items = encoded_trees(ts)->List_0;
    assert forall|i: int| 0 <= i < items.len() implies (#[trigger] items[i]).within_depth(2) by {
        lemma_tree_depth(ts[i]);
    }
}

/// The document of an ensemble is nested four deep.
proof fn lemma_forest_depth(f: Seq<DecisionTree>)
    ensures
        encoded_forest(f).within_depth(4),
{
    lemma_trees_depth(f);
    let members = encoded_forest(f)->Record_0;
    assert forall|i: int| 0 <= i < members.len() implies (#[trigger] members[i]).1.within_depth(
        3,
    ) by {
        if i == 0 {
            assert(members[i].1 == encoded_trees(f));
        } else {
            assert(members[i].1 is Number);
        }
    }
}

/// The document of a boosting model is nested four deep.
proof fn lemma_boosting_depth(m: BoostingModel)
    ensures
        encoded_boosting(m).within_depth(4),
{
    lemma_trees_depth(m.trees);
    let members = encoded_boosting(m)->Record_0;
    assert forall|i: int| 0 <= i < members.len() implies (#[trigger] members[i]).1.within_depth(
        3,
    ) by {
        if i == 1 {
            assert(members[i].1 == encoded_trees(m.trees));
        } else {
            assert(members[i].1 is Number);
        }
    }
}

/// The document of a bundle is nested five deep, which is within what is
/// written as text.
proof fn lemma_bundle_depth(b: BundleModel)
    ensures
        encoded_bundle(b).within_depth(MAX_NESTING as nat),
{
    lemma_forest_depth(b.vmaf_model);
    lemma_forest_depth(b.psnr_model);
    lemma_boosting_depth(b.cost_model);
    lemma_boosting_depth(b.co2_model);
    let members = encoded_bundle(b)->Record_0;
    assert forall|i: int| 0 <= i < members.len() implies (#[trigger] members[i]).1.within_depth(
        4,
    ) by {
        if i == 0 {
            assert(members[i].1 is Text);
        } else if i == 1 {
            assert(members[i].1 == encoded_forest(b.vmaf_model));
        } else if i == 2 {
            assert(members[i].1 == encoded_forest(b.psnr_model));
        } else if i == 3 {
            assert(members[i].1 == encoded_boosting(b.cost_model));
        } else {
            assert(members[i].1 == encoded_boosting(b.co2_model));
        }
    }
    encoded_bundle(b).lemma_depth_monotonic(5, MAX_NESTING as nat);
}

/// The bundle that a text holds: what the document that the text parses to
/// stands for.
pub open spec fn stored_bundle(text: Seq<char>) -> Option<BundleModel> {
    match parsed_text(text) {
        Some(d) => match decoded_bundle(d) {
            Ok(b) => Some(b),
            Err(_) => None,
        },
        None => None,
    }
}

/// The text that is stored for a bundle: its document rendered, where the
/// document can count the units, can be rendered, and the text holds the
/// bundle again.
pub open spec fn saved_text(b: BundleModel) -> Option<Seq<char>> {
    if !encodable(b) {
        None
    } else {
        match rendered_text(encoded_bundle(b)) {
            Some(text) => if stored_bundle(text) == Some(b) {
                Some(text)
            } else {
                None
            },
            None => None,
        }
    }
}

/// What is saved is what is loaded: the text that is stored for a bundle
/// holds that bundle.
pub proof fn lemma_saved_text_loads(b: BundleModel, text: Seq<char>)
    requires
        saved_text(b) == Some(text),
    ensures
        stored_bundle(text) == Some(b),
{
}

/// The integer that member `name` of `doc` holds, where it holds one.
pub fn integer_member_of(doc: &Json, name: &str) -> (r: Option<i64>)
    ensures
        r == integer_member(doc@, name@),
{
    match doc.member(name) {
        Some(v) => v.integer(),
        None => None,
    }
}

/// The items of the list that member `name` of `doc` holds, where it holds
/// one.
pub fn list_member_of<'a>(doc: &'a Json, name: &str) -> (r: Option<&'a Vec<Json>>)
    ensures
        match r {
            Some(items) => list_member(doc@, name@) == Some(list_model(items@)),
            None => list_member(doc@, name@) is None,
        },
{
    match doc.member(name) {
        Some(v) => v.items(),
        None => None,
    }
}

/// Writes one regression unit as a document.
pub fn encode_tree(t: &DecisionTree) -> (r: Json)
    ensures
        r@ == encoded_tree(*t),
{
    let mut weights: Vec<Json> = Vec::new();
    let mut i: usize = 0;
    while i < 6
        invariant
            i <= 6,
            weights@.len() == i,
            forall|k: int| 0 <= k < i ==> weights@[k]@ == JsonModel::Number(Some(t.weights[k])),
        decreases 6 - i,
    {
        weights.push(Json::from_integer(t.weights[i]));
        i = i + 1;
    }
    assert(list_model(weights@) =~= Seq::new(
        6,
        |i: int| JsonModel::Number(Some(t.weights[i])),
    ));
    let mut members: Vec<(String, Json)> = Vec::new();
    members.push(("intercept".to_owned(), Json::from_integer(t.intercept)));
    members.push(("weights".to_owned(), Json::from_items(weights)));
    assert(members_model(members@) =~= encoded_tree(*t)->Record_0);
    Json::from_members(members)
}

/// Writes a sequence of regression units as a list of documents.
pub fn encode_trees(ts: &Vec<DecisionTree>) -> (r: Json)
    ensures
        r@ == encoded_trees(ts@),
{
    let n: usize = ts.len();
    let mut items: Vec<Json> = Vec::new();
    let mut i: usize = 0;
    while i < n
        invariant
            n == ts@.len(),
            i <= n,
            items@.len() == i,
            forall|k: int| 0 <= k < i ==> items@[k]@ == encoded_tree(ts@[k]),
        decreases n - i,
    {
        items.push(encode_tree(&ts[i]));
        i = i + 1;
    }
    assert(list_model(items@) =~= encoded_trees(ts@)->List_0);
    Json::from_items(items)
}

/// Writes an ensemble as a document; `None` where it has more units than the
/// document can count.
pub fn encode_forest(f: &SimpleRandomForest) -> (r: Option<Json>)
    ensures
        match r {
            Some(doc) => f@.len() <= i64::MAX && doc@ == encoded_forest(f@),
            None => f@.len() > i64::MAX,
        },
{
    let n: usize = f.n_trees();
    if n as u64 > i64::MAX as u64 {
        return None;
    }
    let mut members: Vec<(String, Json)> = Vec::new();
    members.push(("trees".to_owned(), encode_trees(f.trees())));
    members.push(("n_trees".to_owned(), Json::from_integer(n as i64)));
    assert(members_model(members@) =~= encoded_forest(f@)->Record_0);
    Some(Json::from_members(members))
}

/// Writes a boosting model as a document.
pub fn encode_boosting(m: &SimpleGradientBoosting) -> (r: Json)
    ensures
        r@ == encoded_boosting(m@),
{
    let mut members: Vec<(String, Json)> = Vec::new();
    members.push(("base_prediction".to_owned(), Json::from_integer(m.base_prediction())));
    members.push(("trees".to_owned(), encode_trees(m.trees())));
    members.push(("learning_rate".to_owned(), Json::from_integer(m.learning_rate())));
    assert(members_model(members@) =~= encoded_boosting(m@)->Record_0);
    Json::from_members(members)
}

/// Writes a bundle as a document; `None` where an ensemble has more units
/// than the document can count.
pub fn encode_bundle(b: &ModelBundle) -> (r: Option<Json>)
    ensures
        match r {
            Some(doc) => encodable(b@) && doc@ == encoded_bundle(b@),
            None => !encodable(b@),
        },
{
    let vmaf: Json = match encode_forest(&b.vmaf_model) {
        Some(doc) => doc,
        None => {
            return None;
        },
    };
    let psnr: Json = match encode_forest(&b.psnr_model) {
        Some(doc) => doc,
        None => {
            return None;
        },
    };
    let mut members: Vec<(String, Json)> = Vec::new();
    members.push(("version".to_owned(), Json::from_text(b.version.clone())));
    members.push(("vmaf_model".to_owned(), vmaf));
    members.push(("psnr_model".to_owned(), psnr));
    members.push(("cost_model".to_owned(), encode_boosting(&b.cost_model)));
    members.push(("co2_model".to_owned(), encode_boosting(&b.co2_model)));
    assert(members_model(members@) =~= encoded_bundle(b@)->Record_0);
    Some(Json::from_members(members))
}

/// Reads one regression unit from a document.
pub fn decode_tree(doc: &Json) -> (r: Option<DecisionTree>)
    ensures
        r == decoded_tree(doc@),
{
    let intercept: i64 = match integer_member_of(doc, "intercept") {
        Some(n) => n,
        None => {
            return None;
        },
    };
    let items: &Vec<Json> = match list_member_of(doc, "weights") {
        Some(items) => items,
        None => {
            return None;
        },
    };
    if items.len() != 6 {
        return None;
    }
    let mut weights: [i64; 6] = [0, 0, 0, 0, 0, 0];
    let mut i: usize = 0;
    while i < 6
        invariant
            i <= 6,
            items@.len() == 6,
            integer_member(doc@, "intercept"@) == Some(intercept),
            list_member(doc@, "weights"@) == Some(list_model(items@)),
            forall|k: int|
                0 <= k < i ==> list_model(items@)[k].integer() == Some(#[trigger] weights[k]),
        decreases 6 - i,
    {
        match items[i].integer() {
            Some(n) => {
                weights[i] = n;
            },
            None => {
                return None;
            },
        }
        i = i + 1;
    }
    let r = DecisionTree { intercept, weights };
    proof {
        let w = list_model(items@);
        assert(w[0].integer() == Some(weights[0]));
        assert(w[1].integer() == Some(weights[1]));
        assert(w[2].integer() == Some(weights[2]));
        assert(w[3].integer() == Some(weights[3]));
        assert(w[4].integer() == Some(weights[4]));
        assert(w[5].integer() == Some(weights[5]));
        assert(r.weights =~= decoded_tree(doc@)->0.weights);
    }
    Some(r)
}

/// Reads a sequence of regression units from a list of documents.
pub fn decode_trees(items: &Vec<Json>) -> (r: Option<Vec<DecisionTree>>)
    ensures
        match r {
            Some(ts) => decoded_trees(list_model(items@)) == Some(ts@),
            None => decoded_trees(list_model(items@)) is None,
        },
{
    let n: usize = items.len();
    let mut out: Vec<DecisionTree> = Vec::new();
    let mut i: usize = 0;
    while i < n
        invariant
            n == items@.len(),
            i <= n,
            out@.len() == i,
            forall|k: int|
                0 <= k < i ==> (#[trigger] decoded_tree(list_model(items@)[k])) == Some(out@[k]),
        decreases n - i,
    {
        match decode_tree(&items[i]) {
            Some(t) => {
                out.push(t);
            },
            None => {
                assert(decoded_tree(list_model(items@)[i as int]) is None);
                return None;
            },
        }
        i = i + 1;
    }
    Some(out)
}

/// Reads the units that member `trees` of a document holds.
pub fn trees_member_of(doc: &Json) -> (r: Option<Vec<DecisionTree>>)
    ensures
        match r {
            Some(ts) => trees_member(doc@) == Some(ts@),
            None => trees_member(doc@) is None,
        },
{
    match list_member_of(doc, "trees") {
        Some(items) => decode_trees(items),
        None => None,
    }
}

/// Reads an ensemble from a document.
pub fn decode_forest(doc: &Json) -> (r: Option<SimpleRandomForest>)
    ensures
        match r {
            Some(f) => decoded_forest(doc@) == Some(f@),
            None => decoded_forest(doc@) is None,
        },
{
    let trees: Vec<DecisionTree> = match trees_member_of(doc) {
        Some(ts) => ts,
        None => {
            return None;
        },
    };
    let n: i64 = match integer_member_of(doc, "n_trees") {
        Some(n) => n,
        None => {
            return None;
        },
    };
    if n < 0 || n as u64 != trees.len() as u64 {
        return None;
    }
    Some(SimpleRandomForest::from_units(trees))
}

/// Reads a boosting model from a document.
pub fn decode_boosting(doc: &Json) -> (r: Option<SimpleGradientBoosting>)
    ensures
        match r {
            Some(m) => decoded_boosting(doc@) == Some(m@),
            None => decoded_boosting(doc@) is None,
        },
{
    let base_prediction: i64 = match integer_member_of(doc, "base_prediction") {
        Some(n) => n,
        None => {
            return None;
        },
    };
    let trees: Vec<DecisionTree> = match trees_member_of(doc) {
        Some(ts) => ts,
        None => {
            return None;
        },
    };
    let learning_rate: i64 = match integer_member_of(doc, "learning_rate") {
        Some(n) => n,
        None => {
            return None;
        },
    };
    SimpleGradientBoosting::from_parts(base_prediction, trees, learning_rate)
}

/// Reads a bundle from a document, or says which part of the document, the
/// first in the order version, VMAF, PSNR, cost, CO2, is missing or
/// ill-formed.
pub fn decode_bundle(doc: &Json) -> (r: Result<ModelBundle, FormatError>)
    ensures
        match r {
            Ok(b) => decoded_bundle(doc@) == Ok::<BundleModel, FormatError>(b@),
            Err(e) => decoded_bundle(doc@) == Err::<BundleModel, FormatError>(e),
        },
{
    let version: String = match doc.member("version") {
        Some(v) => match v.text() {
            Some(s) => s.clone(),
            None => {
                return Err(FormatError::Version);
            },
        },
        None => {
            return Err(FormatError::Version);
        },
    };
    let vmaf_model: SimpleRandomForest = match doc.member("vmaf_model") {
        Some(v) => match decode_forest(v) {
            Some(f) => f,
            None => {
                return Err(FormatError::VmafModel);
            },
        },
        None => {
            return Err(FormatError::VmafModel);
        },
    };
    let psnr_model: SimpleRandomForest = match doc.member("psnr_model") {
        Some(v) => match decode_forest(v) {
            Some(f) => f,
            None => {
                return Err(FormatError::PsnrModel);
            },
        },
        None => {
            return Err(FormatError::PsnrModel);
        },
    };
    let cost_model: SimpleGradientBoosting = match doc.member("cost_model") {
        Some(v) => match decode_boosting(v) {
            Some(m) => m,
            None => {
                return Err(FormatError::CostModel);
            },
        },
        None => {
            return Err(FormatError::CostModel);
        },
    };
    let co2_model: SimpleGradientBoosting = match doc.member("co2_model") {
        Some(v) => match decode_boosting(v) {
            Some(m) => m,
            None => {
                return Err(FormatError::Co2Model);
            },
        },
        None => {
            return Err(FormatError::Co2Model);
        },
    };
    Ok(ModelBundle { version, vmaf_model, psnr_model, cost_model, co2_model })
}

/// Reads a bundle from JSON text. Fails with `Syntax` where the text is not
/// JSON, and with `Format` where the document is not a bundle.
pub fn parse_model(text: &str) -> (r: Result<ModelBundle, LoadError>)
    ensures
        match parsed_text(text@) {
            None => r matches Err(LoadError::Syntax(_)),
            Some(d) => match decoded_bundle(d) {
                Ok(b) => r matches Ok(m) && m@ == b,
                Err(e) => r matches Err(LoadError::Format(f)) && f == e,
            },
        },
{
    match parse_text(text) {
        Ok(doc) => match decode_bundle(&doc) {
            Ok(model) => Ok(model),
            Err(e) => Err(LoadError::Format(e)),
        },
        Err(message) => Err(LoadError::Syntax(message)),
    }
}

/// The bundle for what was found where one is kept: the default bundle
/// where nothing is stored, the stored bundle where the text holds one, and
/// a failure where the data could not be read or do not hold a bundle.
pub fn load_model(stored: StoredModel) -> (r: Result<ModelBundle, LoadError>)
    ensures
        match stored {
            StoredModel::Missing => r matches Ok(m) && m@ == default_bundle(),
            StoredModel::Unreadable(why) => r matches Err(LoadError::Storage(s)) && s == why,
            StoredModel::Text(text) => match parsed_text(text@) {
                None => r matches Err(LoadError::Syntax(_)),
                Some(d) => match decoded_bundle(d) {
                    Ok(b) => r matches Ok(m) && m@ == b,
                    Err(e) => r matches Err(LoadError::Format(f)) && f == e,
                },
            },
        },
{
    match stored {
        StoredModel::Missing => Ok(create_default_model()),
        StoredModel::Unreadable(why) => Err(LoadError::Storage(why)),
        StoredModel::Text(text) => parse_model(text.as_str()),
    }
}

/// The bundle for what was found where one is kept, and the default bundle
/// where none can be loaded: this never fails.
pub fn load_model_or_default(stored: StoredModel) -> (r: ModelBundle)
    ensures
        match stored {
            StoredModel::Text(text) => match parsed_text(text@) {
                Some(d) => match decoded_bundle(d) {
                    Ok(b) => r@ == b,
                    Err(_) => r@ == default_bundle(),
                },
                None => r@ == default_bundle(),
            },
            _ => r@ == default_bundle(),
        },
{
    match load_model(stored) {
        Ok(model) => model,
        Err(_) => create_default_model(),
    }
}

/// The JSON text to store for a bundle. The text is read back before it is
/// returned, so that every text returned holds the bundle. Fails with
/// `TooManyUnits` where an ensemble has more units than the document can
/// count, with `Render` where the document could not be written as text, and
/// with `Unfaithful` where the text does not read back as the bundle.
pub fn save_model(model: &ModelBundle) -> (r: Result<String, SaveError>)
    ensures
        match r {
            Ok(s) => saved_text(model@) == Some(s@),
            Err(SaveError::TooManyUnits) => !encodable(model@),
            Err(SaveError::Render(_)) => encodable(model@) && rendered_text(
                encoded_bundle(model@),
            ) is None,
            Err(SaveError::Unfaithful) => encodable(model@) && (rendered_text(
                encoded_bundle(model@),
            ) matches Some(text) && stored_bundle(text) != Some(model@)),
        },
{
    let doc: Json = match encode_bundle(model) {
        Some(doc) => doc,
        None => {
            return Err(SaveError::TooManyUnits);
        },
    };
    proof {
        lemma_bundle_depth(model@);
    }
    let text: String = match render_text(&doc) {
        Ok(text) => text,
        Err(message) => {
            return Err(SaveError::Render(message));
        },
    };
    match parse_model(text.as_str()) {
        Ok(back) => if back.same_as(model) {
            Ok(text)
        } else {
            Err(SaveError::Unfaithful)
        },
        Err(_) => Err(SaveError::Unfaithful),
    }
}

/// Decoding the document of a regression unit gives the unit back.
pub proof fn lemma_tree_round_trip(t: DecisionTree)
    ensures
        decoded_tree(encoded_tree(t)) == Some(t),
{
    reveal_strlit("intercept");
    reveal_strlit("weights");
    reveal_with_fuel(member_from, 3);
    assert("intercept"@.len() != "weights"@.len());
    assert(decoded_tree(encoded_tree(t))->0.weights =~= t.weights);
}

/// Decoding the documents of a sequence of regression units gives the units
/// back.
pub proof fn lemma_trees_round_trip(ts: Seq<DecisionTree>)
    ensures
        encoded_trees(ts).items() is Some,
        decoded_trees(encoded_trees(ts).items()->0) == Some(ts),
{
    let items = encoded_trees(ts).items()->0;
    assert forall|k: int| 0 <= k < items.len() implies (#[trigger] decoded_tree(items[k]))
        == Some(ts[k]) by {
        lemma_tree_round_trip(ts[k]);
    }
}

/// Decoding the document of an ensemble gives the ensemble back, where the
/// document can count its units.
pub proof fn lemma_forest_round_trip(f: Seq<DecisionTree>)
    requires
        f.len() <= i64::MAX,
    ensures
        decoded_forest(encoded_forest(f)) == Some(f),
{
    reveal_strlit("trees");
    reveal_strlit("n_trees");
    reveal_with_fuel(member_from, 3);
    lemma_trees_round_trip(f);
    assert("trees"@.len() != "n_trees"@.len());
}

/// Decoding the document of a well-formed boosting model gives the model
/// back.
pub proof fn lemma_boosting_round_trip(m: BoostingModel)
    requires
        m.wf(),
    ensures
        decoded_boosting(encoded_boosting(m)) == Some(m),
{
    reveal_strlit("base_prediction");
    reveal_strlit("trees");
    reveal_strlit("learning_rate");
    reveal_with_fuel(member_from, 4);
    lemma_trees_round_trip(m.trees);
    assert("base_prediction"@.len() != "trees"@.len());
    assert("base_prediction"@.len() != "learning_rate"@.len());
    assert("trees"@.len() != "learning_rate"@.len());
}

/// Decoding the document of a bundle gives the bundle back: what is saved is
/// what is loaded. This holds of every bundle whose boosting models are well
/// formed and whose ensembles the document can count.
pub proof fn lemma_bundle_round_trip(b: BundleModel)
    requires
        b.wf(),
        encodable(b),
    ensures
        decoded_bundle(encoded_bundle(b)) == Ok::<BundleModel, FormatError>(b),
{
    reveal_strlit("version");
    reveal_strlit("vmaf_model");
    reveal_strlit("psnr_model");
    reveal_strlit("cost_model");
    reveal_strlit("co2_model");
    reveal_with_fuel(member_from, 6);
    lemma_forest_round_trip(b.vmaf_model);
    lemma_forest_round_trip(b.psnr_model);
    lemma_boosting_round_trip(b.cost_model);
    lemma_boosting_round_trip(b.co2_model);
    assert("version"@.len() == 7);
    assert("vmaf_model"@.len() == 10);
    assert("co2_model"@.len() == 9);
    assert("vmaf_model"@[0] == 'v');
    assert("psnr_model"@[0] == 'p');
    assert("cost_model"@[0] == 'c');
}

} // verus!
