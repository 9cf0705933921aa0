//! Records and their JSON documents: how each type of a reply is read from
//! a document and written as one.

use crate::json::{json_model, lemma_lookup_unique, put, JsonSpec, JsonValue};
use crate::{
    DataPage, DataPageView, List, ListView, Pagenation, Response, ResponseList, ResponsePage,
    ResponseView,
};
use vstd::prelude::*;

verus! {

/// A type that is read from a JSON document.
pub trait FromJson: DeepView + Sized {
    /// What a document is read as: `None` where it has not the shape of
    /// the type.
    spec fn decoded(value: JsonSpec) -> Option<<Self as DeepView>::V>;

    /// Reads a value of the type from a document.
    fn from_json(value: &JsonValue) -> (r: Option<Self>)
        ensures
            r.deep_view() == Self::decoded(value.deep_view()),
    ;
}

impl FromJson for String {
    open spec fn decoded(value: JsonSpec) -> Option<Seq<char>> {
        value.text()
    }

    fn from_json(value: &JsonValue) -> (r: Option<String>) {
        match value {
            JsonValue::String(s) => Some(s.clone()),
            _ => None,
        }
    }
}

impl FromJson for usize {
    open spec fn decoded(value: JsonSpec) -> Option<usize> {
        match value {
            JsonSpec::Number(n) => if n <= usize::MAX {
                Some(n as usize)
            } else {
                None
            },
            _ => None,
        }
    }

    fn from_json(value: &JsonValue) -> (r: Option<usize>) {
        match value {
            JsonValue::Number(n) => {
                if *n <= usize::MAX as u64 {
                    Some(*n as usize)
                } else {
                    None
                }
            },
            _ => None,
        }
    }
}

impl FromJson for JsonValue {
    open spec fn decoded(value: JsonSpec) -> Option<JsonSpec> {
        Some(value)
    }

    fn from_json(value: &JsonValue) -> (r: Option<JsonValue>) {
        Some(value.clone())
    }
}

/// What the value under a key of an object is read as.
pub open spec fn decoded_at<T: FromJson>(value: JsonSpec, key: Seq<char>) -> Option<
    <T as DeepView>::V,
> {
    match value.member(key) {
        Some(v) => T::decoded(v),
        None => None,
    }
}

/// Reads the value under a key of an object.
pub fn read_at<T: FromJson>(value: &JsonValue, key: &str) -> (r: Option<T>)
    ensures
        r.deep_view() == decoded_at::<T>(value.deep_view(), key@),
{
    match value.get(key) {
        Some(v) => T::from_json(v),
        None => None,
    }
}

/// What the items of an array are read as, if each of them can be read.
pub open spec fn decoded_items<T: FromJson>(items: Seq<JsonSpec>) -> Option<Seq<<T as DeepView>::V>>
    decreases items.len(),
{
    if items.len() == 0 {
        Some(Seq::empty())
    } else {
        match (decoded_items::<T>(items.drop_last()), T::decoded(items.last())) {
            (Some(front), Some(last)) => Some(front.push(last)),
            _ => None,
        }
    }
}

impl<T: FromJson> FromJson for Vec<T> {
    open spec fn decoded(value: JsonSpec) -> Option<Seq<<T as DeepView>::V>> {
        match value {
            JsonSpec::Array(items) => decoded_items::<T>(items),
            _ => None,
        }
    }

    fn from_json(value: &JsonValue) -> (r: Option<Vec<T>>) {
        match value {
            JsonValue::Array(items) => {
                let ghost all = json_model(*value)->Array_0;
                let mut records: Vec<T> = Vec::new();
                let mut i: usize = 0;
                while i < items.len()
                    invariant
                        i <= items@.len(),
                        all.len() == items@.len(),
                        json_model(*value) == JsonSpec::Array(all),
                        forall|j: int| 0 <= j < items@.len() ==> all[j] == json_model(items@[j]),
                        decoded_items::<T>(all.subrange(0, i as int)) == Some(
                            records.deep_view(),
                        ),
                    decreases items@.len() - i,
                {
                    proof {
                        let next = all.subrange(0, i + 1);
                        assert(next.last() == all[i as int]);
                        assert(next.drop_last() =~= all.subrange(0, i as int));
                        if T::decoded(all[i as int]) is None {
                            lemma_decoded_none::<T>(all, i as int);
                        }
                    }
                    match T::from_json(&items[i]) {
                        Some(record) => {
                            records.push(record);
                        },
                        None => {
                            return None;
                        },
                    }
                    i = i + 1;
                }
                assert(all.subrange(0, i as int) =~= all);
                Some(records)
            },
            _ => None,
        }
    }
}

/// An array with an item that cannot be read cannot be read.
pub proof fn lemma_decoded_none<T: FromJson>(items: Seq<JsonSpec>, i: int)
    requires
        0 <= i < items.len(),
        T::decoded(items[i]) is None,
    ensures
        decoded_items::<T>(items) is None,
    decreases items.len(),
{
    if i < items.len() - 1 {
        lemma_decoded_none::<T>(items.drop_last(), i);
    }
}

impl FromJson for Pagenation {
    open spec fn decoded(value: JsonSpec) -> Option<Pagenation> {
        match (decoded_at::<usize>(value, "currentPage"@), decoded_at::<usize>(value, "count"@)) {
            (Some(current_page), Some(count)) => Some(Pagenation { current_page, count }),
            _ => None,
        }
    }

    fn from_json(value: &JsonValue) -> (r: Option<Pagenation>) {
        let current_page = read_at::<usize>(value, "currentPage")?;
        let count = read_at::<usize>(value, "count")?;
        Some(Pagenation { current_page, count })
    }
}

/// What a document is read as where it is an envelope: an object with a
/// number under `status`, a text under `responsetime`, and under `data`
/// what `payload` reads.
pub open spec fn decoded_envelope<D>(
    value: JsonSpec,
    payload: spec_fn(JsonSpec) -> Option<D>,
) -> Option<ResponseView<D>> {
    match (
        decoded_at::<usize>(value, "status"@),
        value.member("data"@),
        decoded_at::<String>(value, "responsetime"@),
    ) {
        (Some(status), Some(data), Some(responsetime)) => match payload(data) {
            Some(data) => Some(ResponseView { status, data, responsetime }),
            None => None,
        },
        _ => None,
    }
}

impl<T: FromJson> FromJson for Response<T> {
    open spec fn decoded(value: JsonSpec) -> Option<ResponseView<<T as DeepView>::V>> {
        decoded_envelope(value, |data: JsonSpec| T::decoded(data))
    }

    fn from_json(value: &JsonValue) -> (r: Option<Response<T>>) {
        let status = read_at::<usize>(value, "status")?;
        let data = T::from_json(value.get("data")?)?;
        let responsetime = read_at::<String>(value, "responsetime")?;
        Some(Response { status, data, responsetime })
    }
}

impl<T: FromJson> FromJson for DataPage<T> {
    open spec fn decoded(value: JsonSpec) -> Option<DataPageView<<T as DeepView>::V>> {
        match (value.member("pagination"@), value.member("list"@)) {
            (Some(pagination), Some(list)) => match (
                Pagenation::decoded(pagination),
                Vec::<T>::decoded(list),
            ) {
                (Some(pagination), Some(list)) => Some(DataPageView { pagination, list }),
                _ => None,
            },
            _ => None,
        }
    }

    fn from_json(value: &JsonValue) -> (r: Option<DataPage<T>>) {
        let pagination = Pagenation::from_json(value.get("pagination")?)?;
        let list = Vec::<T>::from_json(value.get("list")?)?;
        Some(DataPage { pagination, list })
    }
}

impl<T: FromJson> FromJson for ResponsePage<T> {
    open spec fn decoded(value: JsonSpec) -> Option<ResponseView<DataPageView<<T as DeepView>::V>>> {
        decoded_envelope(value, |data: JsonSpec| DataPage::<T>::decoded(data))
    }

    fn from_json(value: &JsonValue) -> (r: Option<ResponsePage<T>>) {
        let status = read_at::<usize>(value, "status")?;
        let data = DataPage::<T>::from_json(value.get("data")?)?;
        let responsetime = read_at::<String>(value, "responsetime")?;
        Some(ResponsePage { status, data, responsetime })
    }
}

impl<T: FromJson> FromJson for List<T> {
    open spec fn decoded(value: JsonSpec) -> Option<ListView<<T as DeepView>::V>> {
        match value.member("list"@) {
            Some(list) => match Vec::<T>::decoded(list) {
                Some(list) => Some(ListView { list }),
                None => None,
            },
            None => None,
        }
    }

    fn from_json(value: &JsonValue) -> (r: Option<List<T>>) {
        let list = Vec::<T>::from_json(value.get("list")?)?;
        Some(List { list })
    }
}

impl<T: FromJson> FromJson for ResponseList<T> {
    open spec fn decoded(value: JsonSpec) -> Option<ResponseView<ListView<<T as DeepView>::V>>> {
        decoded_envelope(value, |data: JsonSpec| List::<T>::decoded(data))
    }

    fn from_json(value: &JsonValue) -> (r: Option<ResponseList<T>>) {
        let status = read_at::<usize>(value, "status")?;
        let data = List::<T>::from_json(value.get("data")?)?;
        let responsetime = read_at::<String>(value, "responsetime")?;
        Some(ResponseList { status, data, responsetime })
    }
}

/// A type that is written as a JSON document, from which it is read back.
pub trait ToJson: FromJson {
    /// The document that a value is written as.
    spec fn encoded(record: <Self as DeepView>::V) -> JsonSpec;

    /// Writes a value of the type as a document.
    fn to_json(&self) -> (r: JsonValue)
        ensures
            r.deep_view() == Self::encoded(self.deep_view()),
    ;

    /// Reading the document that a value is written as gives the value
    /// back.
    proof fn lemma_round_trip(record: <Self as DeepView>::V)
        ensures
            Self::decoded(Self::encoded(record)) == Some(record),
    ;
}

impl ToJson for String {
    open spec fn encoded(record: Seq<char>) -> JsonSpec {
        JsonSpec::String(record)
    }

    fn to_json(&self) -> (r: JsonValue) {
        JsonValue::string(self.clone())
    }

    proof fn lemma_round_trip(record: Seq<char>) {
    }
}

impl ToJson for usize {
    open spec fn encoded(record: usize) -> JsonSpec {
        JsonSpec::Number(record as u64)
    }

    fn to_json(&self) -> (r: JsonValue) {
        JsonValue::number(*self as u64)
    }

    proof fn lemma_round_trip(record: usize) {
    }
}

impl ToJson for JsonValue {
    open spec fn encoded(record: JsonSpec) -> JsonSpec {
        record
    }

    fn to_json(&self) -> (r: JsonValue) {
        self.clone()
    }

    proof fn lemma_round_trip(record: JsonSpec) {
    }
}

/// The documents that the records of a sequence are written as.
pub open spec fn encoded_items<T: ToJson>(records: Seq<<T as DeepView>::V>) -> Seq<JsonSpec>
    decreases records.len(),
{
    if records.len() == 0 {
        Seq::empty()
    } else {
        encoded_items::<T>(records.drop_last()).push(T::encoded(records.last()))
    }
}

/// Reading the documents that a sequence of records is written as gives
/// the sequence back.
pub proof fn lemma_items_round_trip<T: ToJson>(records: Seq<<T as DeepView>::V>)
    ensures
        decoded_items::<T>(encoded_items::<T>(records)) == Some(records),
    decreases records.len(),
{
    if records.len() > 0 {
        let front = encoded_items::<T>(records.drop_last());
        lemma_items_round_trip::<T>(records.drop_last());
        T::lemma_round_trip(records.last());
        assert(front.push(T::encoded(records.last())).drop_last() =~= front);
        assert(records.drop_last().push(records.last()) =~= records);
    } else {
    }
}

impl<T: ToJson> ToJson for Vec<T> {
    open spec fn encoded(record: Seq<<T as DeepView>::V>) -> JsonSpec {
        JsonSpec::Array(encoded_items::<T>(record))
    }

    fn to_json(&self) -> (r: JsonValue) {
        let ghost all = self.deep_view();
        let mut items: Vec<JsonValue> = Vec::new();
        let mut i: usize = 0;
        while i < self.len()
            invariant
                i <= self@.len(),
                all == self.deep_view(),
                items.deep_view() == encoded_items::<T>(all.subrange(0, i as int)),
            decreases self@.len() - i,
        {
            let ghost before = items.deep_view();
            let item = self[i].to_json();
            items.push(item);
            proof {
                let next = all.subrange(0, i + 1);
                assert(next.last() == self@[i as int].deep_view());
                assert(next.drop_last() =~= all.subrange(0, i as int));
                assert(items.deep_view() =~= before.push(item.deep_view()));
            }
            i = i + 1;
        }
        assert(all.subrange(0, i as int) =~= all);
        JsonValue::array(items)
    }

    proof fn lemma_round_trip(record: Seq<<T as DeepView>::V>) {
        lemma_items_round_trip::<T>(record);
    }
}

impl ToJson for Pagenation {
    open spec fn encoded(record: Pagenation) -> JsonSpec {
        JsonSpec::Object(
            seq![
                ("currentPage"@, JsonSpec::Number(record.current_page as u64)),
                ("count"@, JsonSpec::Number(record.count as u64)),
            ],
        )
    }

    fn to_json(&self) -> (r: JsonValue) {
        let mut fields: Vec<(String, JsonValue)> = Vec::new();
        put(&mut fields, "currentPage", JsonValue::number(self.current_page as u64));
        put(&mut fields, "count", JsonValue::number(self.count as u64));
        assert(fields.deep_view() =~= Self::encoded(*self)->Object_0);
        JsonValue::object(fields)
    }

    proof fn lemma_round_trip(record: Pagenation) {
        reveal_strlit("currentPage");
        reveal_strlit("count");
        let fields = Self::encoded(record)->Object_0;
        assert("currentPage"@.len() == 11);
        assert("count"@.len() == 5);
        lemma_lookup_unique(fields, 0);
        lemma_lookup_unique(fields, 1);
    }
}

/// The document of an envelope: the status, the payload and the time of
/// the reply.
pub open spec fn encoded_envelope(status: usize, data: JsonSpec, responsetime: Seq<char>) -> JsonSpec {
    JsonSpec::Object(
        seq![
            ("status"@, JsonSpec::Number(status as u64)),
            ("data"@, data),
            ("responsetime"@, JsonSpec::String(responsetime)),
        ],
    )
}

/// Writes an envelope.
fn envelope_to_json(status: usize, data: JsonValue, responsetime: &String) -> (r: JsonValue)
    ensures
        r.deep_view() == encoded_envelope(status, data.deep_view(), responsetime@),
{
    let mut fields: Vec<(String, JsonValue)> = Vec::new();
    put(&mut fields, "status", JsonValue::number(status as u64));
    put(&mut fields, "data", data);
    put(&mut fields, "responsetime", JsonValue::text(responsetime.as_str()));
    assert(fields.deep_view() =~= encoded_envelope(
        status,
        data.deep_view(),
        responsetime@,
    )->Object_0);
    JsonValue::object(fields)
}

/// An envelope is read back from its document where its payload is.
pub proof fn lemma_envelope_round_trip<D>(
    record: ResponseView<D>,
    data: JsonSpec,
    payload: spec_fn(JsonSpec) -> Option<D>,
)
    requires
        payload(data) == Some(record.data),
    ensures
        decoded_envelope(encoded_envelope(record.status, data, record.responsetime), payload)
            == Some(record),
{
    reveal_strlit("status");
    reveal_strlit("data");
    reveal_strlit("responsetime");
    let fields = encoded_envelope(record.status, data, record.responsetime)->Object_0;
    assert("status"@.len() == 6);
    assert("data"@.len() == 4);
    assert("responsetime"@.len() == 12);
    lemma_lookup_unique(fields, 0);
    lemma_lookup_unique(fields, 1);
    lemma_lookup_unique(fields, 2);
}

impl<T: ToJson> ToJson for Response<T> {
    open spec fn encoded(record: ResponseView<<T as DeepView>::V>) -> JsonSpec {
        encoded_envelope(record.status, T::encoded(record.data), record.responsetime)
    }

    fn to_json(&self) -> (r: JsonValue) {
        envelope_to_json(self.status, self.data.to_json(), &self.responsetime)
    }

    proof fn lemma_round_trip(record: ResponseView<<T as DeepView>::V>) {
        T::lemma_round_trip(record.data);
        lemma_envelope_round_trip(
            record,
            T::encoded(record.data),
            |data: JsonSpec| T::decoded(data),
        );
    }
}

impl<T: ToJson> ToJson for DataPage<T> {
    open spec fn encoded(record: DataPageView<<T as DeepView>::V>) -> JsonSpec {
        JsonSpec::Object(
            seq![
                ("pagination"@, Pagenation::encoded(record.pagination)),
                ("list"@, Vec::<T>::encoded(record.list)),
            ],
        )
    }

    fn to_json(&self) -> (r: JsonValue) {
        let mut fields: Vec<(String, JsonValue)> = Vec::new();
        put(&mut fields, "pagination", self.pagination.to_json());
        put(&mut fields, "list", self.list.to_json());
        assert(fields.deep_view() =~= Self::encoded(self.deep_view())->Object_0);
        JsonValue::object(fields)
    }

    proof fn lemma_round_trip(record: DataPageView<<T as DeepView>::V>) {
        reveal_strlit("pagination");
        reveal_strlit("list");
        Pagenation::lemma_round_trip(record.pagination);
        Vec::<T>::lemma_round_trip(record.list);
        let fields = Self::encoded(record)->Object_0;
        assert("pagination"@.len() == 10);
        assert("list"@.len() == 4);
        lemma_lookup_unique(fields, 0);
        lemma_lookup_unique(fields, 1);
    }
}

impl<T: ToJson> ToJson for ResponsePage<T> {
    open spec fn encoded(record: ResponseView<DataPageView<<T as DeepView>::V>>) -> JsonSpec {
        encoded_envelope(record.status, DataPage::<T>::encoded(record.data), record.responsetime)
    }

    fn to_json(&self) -> (r: JsonValue) {
        envelope_to_json(self.status, self.data.to_json(), &self.responsetime)
    }

    proof fn lemma_round_trip(record: ResponseView<DataPageView<<T as DeepView>::V>>) {
        DataPage::<T>::lemma_round_trip(record.data);
        lemma_envelope_round_trip(
            record,
            DataPage::<T>::encoded(record.data),
            |data: JsonSpec| DataPage::<T>::decoded(data),
        );
    }
}

impl<T: ToJson> ToJson for List<T> {
    open spec fn encoded(record: ListView<<T as DeepView>::V>) -> JsonSpec {
        JsonSpec::Object(seq![("list"@, Vec::<T>::encoded(record.list))])
    }

    fn to_json(&self) -> (r: JsonValue) {
        let mut fields: Vec<(String, JsonValue)> = Vec::new();
        assert(fields.deep_view() =~= Seq::empty());
        put(&mut fields, "list", self.list.to_json());
        JsonValue::object(fields)
    }

    proof fn lemma_round_trip(record: ListView<<T as DeepView>::V>) {
        Vec::<T>::lemma_round_trip(record.list);
        let fields = Self::encoded(record)->Object_0;
        lemma_lookup_unique(fields, 0);
    }
}

impl<T: ToJson> ToJson for ResponseList<T> {
    open spec fn encoded(record: ResponseView<ListView<<T as DeepView>::V>>) -> JsonSpec {
        encoded_envelope(record.status, List::<T>::encoded(record.data), record.responsetime)
    }

    fn to_json(&self) -> (r: JsonValue) {
        envelope_to_json(self.status, self.data.to_json(), &self.responsetime)
    }

    proof fn lemma_round_trip(record: ResponseView<ListView<<T as DeepView>::V>>) {
        List::<T>::lemma_round_trip(record.data);
        lemma_envelope_round_trip(
            record,
            List::<T>::encoded(record.data),
            |data: JsonSpec| List::<T>::decoded(data),
        );
    }
}

} // verus!
