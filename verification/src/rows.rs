use vstd::prelude::*;

verus! {

/// One column of a result: its name and the backend's name for its type.
#[derive(Clone, Debug, PartialEq, Eq)]
pub struct Header {
    pub name: String,
    pub data_type: String,
}

/// A `Header` as text.
pub struct HeaderView {
    pub name: Seq<char>,
    pub data_type: Seq<char>,
}

impl View for Header {
    type V = HeaderView;

    open spec fn view(&self) -> HeaderView {
        HeaderView { name: self.name@, data_type: self.data_type@ }
    }
}

impl DeepView for Header {
    type V = HeaderView;

    open spec fn deep_view(&self) -> HeaderView {
        self@
    }
}

/// One row as the backend handed it over: the columns it reports and every cell
/// already rendered as text, in column order.
#[derive(Clone, Debug, PartialEq, Eq)]
pub struct FetchedRow {
    pub columns: Vec<Header>,
    pub values: Vec<String>,
}

/// A `FetchedRow` as text.
pub struct FetchedRowView {
    pub columns: Seq<HeaderView>,
    pub values: Seq<Seq<char>>,
}

impl View for FetchedRow {
    type V = FetchedRowView;

    open spec fn view(&self) -> FetchedRowView {
        FetchedRowView { columns: self.columns.deep_view(), values: self.values.deep_view() }
    }
}

impl DeepView for FetchedRow {
    type V = FetchedRowView;

    open spec fn deep_view(&self) -> FetchedRowView {
        self@
    }
}

/// What a statement produced. A read fills `headers` and `rows` and leaves
/// `rows_affected` empty; a mutating statement leaves both sequences empty and
/// reports how many rows it touched, or `None` where the backend cannot tell,
/// which is not the same as zero.
#[derive(Clone, Debug, PartialEq, Eq)]
pub struct Rows {
    pub headers: Vec<Header>,
    pub rows: Vec<Vec<String>>,
    pub rows_affected: Option<u64>,
}

/// A `Rows` as text.
pub struct RowsView {
    pub headers: Seq<HeaderView>,
    pub rows: Seq<Seq<Seq<char>>>,
    pub rows_affected: Option<u64>,
}

impl View for Rows {
    type V = RowsView;

    open spec fn view(&self) -> RowsView {
        RowsView {
            headers: self.headers.deep_view(),
            rows: self.rows.deep_view(),
            rows_affected: self.rows_affected,
        }
    }
}

/// The rows that arrived, in order: a `None` stands for a row whose fetch failed
/// and is passed over.
pub open spec fn arrived(fetched: Seq<Option<FetchedRowView>>) -> Seq<FetchedRowView> {
    fetched.filter_map(|row: Option<FetchedRowView>| row)
}

/// The result of a read, from the rows it fetched. The headers are those of the
/// first row that arrived; later rows are taken to have the same shape. With no
/// row there is no header either.
pub open spec fn read_result(fetched: Seq<Option<FetchedRowView>>) -> RowsView {
    let rows = arrived(fetched);
    RowsView {
        headers: if rows.len() > 0 {
            rows[0].columns
        } else {
            Seq::empty()
        },
        rows: rows.map_values(|row: FetchedRowView| row.values),
        rows_affected: None,
    }
}

/// The result of a mutating statement that touched `count` rows.
pub open spec fn mutation_result(count: Option<u64>) -> RowsView {
    RowsView { headers: Seq::empty(), rows: Seq::empty(), rows_affected: count }
}

/// One more fetched row extends what arrived by that row, or by nothing where its
/// fetch failed.
proof fn lemma_arrived_next(fetched: Seq<Option<FetchedRowView>>, i: int)
    requires
        0 <= i < fetched.len(),
    ensures
        fetched[i] is Some ==> arrived(fetched.take(i + 1)) == arrived(fetched.take(i)).push(
            fetched[i]->0,
        ),
        fetched[i] is None ==> arrived(fetched.take(i + 1)) == arrived(fetched.take(i)),
{
    fetched.lemma_filter_map_take_succ(|row: Option<FetchedRowView>| row, i);
}

impl Rows {
    /// A result has one of two shapes: rows under their headers and no count, or
    /// nothing but a count.
    pub open spec fn well_formed(&self) -> bool {
        self.rows_affected is Some ==> self.headers@.len() == 0 && self.rows@.len() == 0
    }

    /// Builds the result of a read from what was fetched, row by row.
    pub fn from_fetched(fetched: Vec<Option<FetchedRow>>) -> (result: Rows)
        ensures
            result@ == read_result(fetched.deep_view()),
            result.well_formed(),
            result.rows_affected is None,
            result.rows@.len() == arrived(fetched.deep_view()).len(),
            arrived(fetched.deep_view()).len() == 0 ==> result.headers@.len() == 0,
    {
        let ghost all = fetched.deep_view();
        let mut headers: Vec<Header> = Vec::new();
        let mut rows: Vec<Vec<String>> = Vec::new();
        for item in it: fetched.into_iter()
            invariant
                it.seq() == fetched@,
                all == fetched.deep_view(),
                rows.deep_view() == arrived(all.take(it.index() as int)).map_values(
                    |row: FetchedRowView| row.values,
                ),
                headers.deep_view() == read_result(all.take(it.index() as int)).headers,
        {
            let ghost before = arrived(all.take(it.index() as int));
            proof {
                assert(all[it.index() as int] == item.deep_view());
                lemma_arrived_next(all, it.index() as int);
            }
            match item {
                Some(row) => {
                    let FetchedRow { columns, values } = row;
                    if rows.len() == 0 {
                        headers = columns;
                    }
                    let ghost earlier = rows;
                    rows.push(values);
                    proof {
                        let kept = before.push(row@).map_values(|row: FetchedRowView| row.values);
                        assert(earlier.deep_view().len() == before.len());
                        assert forall|k: int| 0 <= k < kept.len() implies rows.deep_view()[k]
                            == kept[k] by {
                            if k < before.len() {
                                assert(rows@[k] == earlier@[k]);
                                assert(earlier.deep_view()[k] == before[k].values);
                            }
                        }
                        assert(rows.deep_view() =~= kept);
                    }
                },
                None => {},
            }
        }
        proof {
            assert(all.take(all.len() as int) =~= all);
        }
        Rows { headers, rows, rows_affected: None }
    }

    /// Builds the result of a mutating statement from the count the backend gave.
    pub fn affected(count: Option<u64>) -> (result: Rows)
        ensures
            result@ == mutation_result(count),
            result.well_formed(),
            result.headers@.len() == 0,
            result.rows@.len() == 0,
            result.rows_affected == count,
    {
        let result = Rows { headers: Vec::new(), rows: Vec::new(), rows_affected: count };
        proof {
            assert(result@.headers =~= Seq::empty());
            assert(result@.rows =~= Seq::empty());
        }
        result
    }
}

} // verus!
