use vstd::prelude::*;

verus! {

/// An argument or a reply as the engine carries it.
///
/// The engine never interprets a payload. It passes values on, wraps a whole
/// argument list into one `List`, and tells the boolean `true` from every
/// other reply.
#[derive(Debug, PartialEq, Eq)]
pub enum Value {
    Bool(bool),
    Int(i128),
    Text(String),
    List(Vec<Value>),
    /// A value that only the host that issued it can resolve, carried by its
    /// handle.
    Opaque(u64),
}

/// The mathematical content of a [`Value`].
pub enum ValueView {
    Bool(bool),
    Int(i128),
    Text(Seq<char>),
    List(Seq<ValueView>),
    Opaque(u64),
}

impl Value {
    /// What the value holds, with every nested list taken as a sequence.
    pub open spec fn content(self) -> ValueView
        decreases self,
    {
        match self {
            Value::Bool(b) => ValueView::Bool(b),
            Value::Int(i) => ValueView::Int(i),
            Value::Text(s) => ValueView::Text(s@),
            // The guard serves the termination proof only: `Seq::new` never
            // asks for an index outside the range.
            Value::List(items) => ValueView::List(
                Seq::new(
                    items@.len(),
                    |i: int|
                        if 0 <= i < items@.len() {
                            items@[i].content()
                        } else {
                            arbitrary()
                        },
                ),
            ),
            Value::Opaque(handle) => ValueView::Opaque(handle),
        }
    }
}

impl View for Value {
    type V = ValueView;

    open spec fn view(&self) -> ValueView {
        self.content()
    }
}

/// The contents of a sequence of values, element by element.
pub open spec fn views(items: Seq<Value>) -> Seq<ValueView> {
    items.map_values(|v: Value| v@)
}

/// A list's content is the contents of its items, in order.
pub proof fn lemma_list_view(items: Vec<Value>)
    ensures
        Value::List(items)@ == ValueView::List(views(items@)),
{
    assert(Value::List(items)@->List_0 =~= views(items@));
}

impl Clone for Value {
    /// A deep copy: the copy has the same content as the value it was made
    /// from.
    fn clone(&self) -> (copy: Value)
        ensures
            copy@ == self@,
        decreases self,
    {
        match self {
            Value::Bool(b) => Value::Bool(*b),
            Value::Int(i) => Value::Int(*i),
            Value::Text(s) => Value::Text(s.clone()),
            Value::List(items) => {
                let copies = clone_values(items);
                proof {
                    lemma_list_view(*items);
                    lemma_list_view(copies);
                }
                Value::List(copies)
            },
            Value::Opaque(handle) => Value::Opaque(*handle),
        }
    }
}

/// Copies a sequence of values, item by item.
pub fn clone_values(items: &Vec<Value>) -> (copies: Vec<Value>)
    ensures
        views(copies@) == views(items@),
    decreases items,
{
    let mut copies: Vec<Value> = Vec::new();
    let mut k: usize = 0;
    while k < items.len()
        invariant
            k <= items.len(),
            copies.len() == k,
            forall|j: int| 0 <= j < k ==> copies@[j]@ == items@[j]@,
        decreases items.len() - k,
    {
        copies.push(items[k].clone());
        k += 1;
    }
    copies
}

} // verus!
