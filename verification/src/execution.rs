//! Order execution: order requests, execution reports, the execution
//! client interface, and an in-memory client that echoes orders back.
use crate::data::InstrumentId;
use crate::data::InstrumentIdV;
use crate::data::Side;
use vstd::prelude::*;
use vstd::string::StrSliceExecFns;
use vstd::string::StringExecFns;

verus! {

/// Order type.
#[derive(Debug, Copy, Clone, PartialEq, Eq, Structural)]
pub enum OrderType {
    Market,
    Limit,
    Stop,
    StopLimit,
}

/// Time in force; the good-till-date variant carries its deadline in
/// microseconds.
#[derive(Debug, Copy, Clone, PartialEq, Eq, Structural)]
pub enum TimeInForce {
    GTC,
    IOC,
    FOK,
    GTD(u64),
}

/// A request to place an order.
#[derive(Debug, PartialEq)]
pub struct OrderRequest {
    pub client_order_id: String,
    pub instrument: InstrumentId,
    pub side: Side,
    pub order_type: OrderType,
    pub quantity: u64,
    /// Limit price, for limit orders.
    pub price: Option<u64>,
    /// Stop price, for stop orders.
    pub stop_price: Option<u64>,
    pub time_in_force: TimeInForce,
    /// Creation timestamp, microseconds.
    pub created_at: u64,
}

/// Mathematical model of an [`OrderRequest`].
pub struct OrderRequestV {
    pub client_order_id: Seq<char>,
    pub instrument: InstrumentIdV,
    pub side: Side,
    pub order_type: OrderType,
    pub quantity: u64,
    pub price: Option<u64>,
    pub stop_price: Option<u64>,
    pub time_in_force: TimeInForce,
    pub created_at: u64,
}

impl View for OrderRequest {
    type V = OrderRequestV;

    open spec fn view(&self) -> OrderRequestV {
        OrderRequestV {
            client_order_id: self.client_order_id@,
            instrument: self.instrument@,
            side: self.side,
            order_type: self.order_type,
            quantity: self.quantity,
            price: self.price,
            stop_price: self.stop_price,
            time_in_force: self.time_in_force,
            created_at: self.created_at,
        }
    }
}

impl Clone for OrderRequest {
    fn clone(&self) -> (r: Self)
        ensures
            r == *self,
    {
        let r = OrderRequest {
            client_order_id: self.client_order_id.clone(),
            instrument: self.instrument.clone(),
            side: self.side,
            order_type: self.order_type,
            quantity: self.quantity,
            price: self.price,
            stop_price: self.stop_price,
            time_in_force: self.time_in_force,
            created_at: self.created_at,
        };
        proof {
            assert(r == *self);
        }
        r
    }
}

/// Order status.
#[derive(Debug, Copy, Clone, PartialEq, Eq, Structural)]
pub enum OrderStatus {
    Created,
    Sent,
    PartiallyFilled,
    Filled,
    Cancelled,
    Rejected,
}

/// Execution report for one order.
#[derive(Debug, PartialEq)]
pub struct ExecutionReport {
    pub client_order_id: String,
    pub exchange_order_id: Option<String>,
    pub status: OrderStatus,
    pub executed_quantity: u64,
    pub avg_price: u64,
    /// Timestamp of the last update, microseconds.
    pub updated_at: u64,
}

/// Mathematical model of an [`ExecutionReport`].
pub struct ExecutionReportV {
    pub client_order_id: Seq<char>,
    pub exchange_order_id: Option<Seq<char>>,
    pub status: OrderStatus,
    pub executed_quantity: u64,
    pub avg_price: u64,
    pub updated_at: u64,
}

impl View for ExecutionReport {
    type V = ExecutionReportV;

    open spec fn view(&self) -> ExecutionReportV {
        ExecutionReportV {
            client_order_id: self.client_order_id@,
            exchange_order_id: match self.exchange_order_id {
                Some(s) => Some(s@),
                None => None,
            },
            status: self.status,
            executed_quantity: self.executed_quantity,
            avg_price: self.avg_price,
            updated_at: self.updated_at,
        }
    }
}

impl Clone for ExecutionReport {
    fn clone(&self) -> (r: Self)
        ensures
            r == *self,
    {
        let exchange_order_id = match &self.exchange_order_id {
            Some(s) => Some(s.clone()),
            None => None,
        };
        let r = ExecutionReport {
            client_order_id: self.client_order_id.clone(),
            exchange_order_id,
            status: self.status,
            executed_quantity: self.executed_quantity,
            avg_price: self.avg_price,
            updated_at: self.updated_at,
        };
        proof {
            assert(r == *self);
        }
        r
    }
}

/// An order-lifecycle notification from an execution venue.
#[derive(Debug, PartialEq)]
pub enum ExecutionEvent {
    OrderAccepted(ExecutionReport),
    OrderPartiallyFilled(ExecutionReport),
    OrderFilled(ExecutionReport),
    OrderCancelled(ExecutionReport),
    OrderRejected(ExecutionReport),
}

/// Mathematical model of an [`ExecutionEvent`].
pub enum ExecutionEventV {
    OrderAccepted(ExecutionReportV),
    OrderPartiallyFilled(ExecutionReportV),
    OrderFilled(ExecutionReportV),
    OrderCancelled(ExecutionReportV),
    OrderRejected(ExecutionReportV),
}

impl View for ExecutionEvent {
    type V = ExecutionEventV;

    open spec fn view(&self) -> ExecutionEventV {
        match self {
            ExecutionEvent::OrderAccepted(r) => ExecutionEventV::OrderAccepted(r@),
            ExecutionEvent::OrderPartiallyFilled(r) => ExecutionEventV::OrderPartiallyFilled(r@),
            ExecutionEvent::OrderFilled(r) => ExecutionEventV::OrderFilled(r@),
            ExecutionEvent::OrderCancelled(r) => ExecutionEventV::OrderCancelled(r@),
            ExecutionEvent::OrderRejected(r) => ExecutionEventV::OrderRejected(r@),
        }
    }
}

/// Failure of an execution client operation.
#[derive(Debug, Copy, Clone, PartialEq, Eq, Structural)]
pub enum ExecutionError {
    /// The order id is unknown to the venue.
    OrderNotFound,
}

impl ExecutionError {
    /// A human-readable description of the failure.
    pub fn message(&self) -> (m: String)
        ensures
            m@ == "Order not found"@,
    {
        String::from_str("Order not found")
    }
}

/// An execution venue: accepts order requests and answers queries about
/// them. Each implementation pins its behaviour through the three spec
/// functions.
pub trait ExecutionClient: Sized {
    type Error;

    /// What sending an order did, per implementation.
    spec fn send_order_ens(
        pre: Self,
        post: Self,
        order: OrderRequestV,
        now_micros: u64,
        r: Result<ExecutionReport, Self::Error>,
    ) -> bool;

    /// What cancelling an order did, per implementation.
    spec fn cancel_order_ens(
        pre: Self,
        post: Self,
        client_order_id: Seq<char>,
        now_micros: u64,
        r: Result<ExecutionReport, Self::Error>,
    ) -> bool;

    /// What querying an order returned, per implementation.
    spec fn order_status_ens(
        &self,
        client_order_id: Seq<char>,
        r: Result<ExecutionReport, Self::Error>,
    ) -> bool;

    /// Send an order request.
    fn send_order(&mut self, order: OrderRequest, now_micros: u64) -> (r: Result<
        ExecutionReport,
        Self::Error,
    >)
        ensures
            Self::send_order_ens(*old(self), *final(self), order@, now_micros, r),
    ;

    /// Cancel an order.
    fn cancel_order(&mut self, client_order_id: &str, now_micros: u64) -> (r: Result<
        ExecutionReport,
        Self::Error,
    >)
        ensures
            Self::cancel_order_ens(*old(self), *final(self), client_order_id@, now_micros, r),
    ;

    /// Get the current status of an order.
    fn get_order_status(&self, client_order_id: &str) -> (r: Result<ExecutionReport, Self::Error>)
        ensures
            self.order_status_ens(client_order_id@, r),
    ;
}

/// The keyed storage that a sequence of reports amounts to: reports later
/// in the sequence overwrite earlier ones with the same id.
spec fn orders_map(s: Seq<ExecutionReport>) -> Map<Seq<char>, ExecutionReportV>
    decreases s.len(),
{
    if s.len() == 0 {
        Map::empty()
    } else {
        orders_map(s.drop_last()).insert(s.last().client_order_id@, s.last()@)
    }
}

proof fn lemma_orders_map_push(s: Seq<ExecutionReport>, r: ExecutionReport)
    ensures
        orders_map(s.push(r)) =~= orders_map(s).insert(r.client_order_id@, r@),
{
    assert(s.push(r).drop_last() =~= s);
    assert(s.push(r).last() == r);
}

proof fn lemma_orders_map_last_match(s: Seq<ExecutionReport>, i: int)
    requires
        0 <= i < s.len(),
        forall|j: int| i < j < s.len() ==> (#[trigger] s[j]).client_order_id@ != s[i].client_order_id@,
    ensures
        orders_map(s).contains_key(s[i].client_order_id@),
        orders_map(s)[s[i].client_order_id@] == s[i]@,
    decreases s.len(),
{
    if i == s.len() - 1 {
    } else {
        assert(s[s.len() - 1].client_order_id@ != s[i].client_order_id@);
        assert(forall|j: int|
            i < j < s.drop_last().len() ==> (#[trigger] s.drop_last()[j]).client_order_id@
                != s.drop_last()[i].client_order_id@);
        lemma_orders_map_last_match(s.drop_last(), i);
    }
}

proof fn lemma_orders_map_absent(s: Seq<ExecutionReport>, id: Seq<char>)
    requires
        forall|j: int| 0 <= j < s.len() ==> (#[trigger] s[j]).client_order_id@ != id,
    ensures
        !orders_map(s).contains_key(id),
    decreases s.len(),
{
    if s.len() > 0 {
        assert(forall|j: int|
            0 <= j < s.drop_last().len() ==> (#[trigger] s.drop_last()[j]).client_order_id@ != id);
        lemma_orders_map_absent(s.drop_last(), id);
    }
}

proof fn lemma_orders_map_update_last(s: Seq<ExecutionReport>, i: int, r: ExecutionReport)
    requires
        0 <= i < s.len(),
        r.client_order_id@ == s[i].client_order_id@,
        forall|j: int| i < j < s.len() ==> (#[trigger] s[j]).client_order_id@ != s[i].client_order_id@,
    ensures
        orders_map(s.update(i, r)) =~= orders_map(s).insert(r.client_order_id@, r@),
    decreases s.len(),
{
    let s2 = s.update(i, r);
    if i == s.len() - 1 {
        assert(s2.drop_last() =~= s.drop_last());
        assert(s2.last() == r);
    } else {
        assert(s2.drop_last() =~= s.drop_last().update(i, r));
        assert(s2.last() == s.last());
        assert(forall|j: int|
            i < j < s.drop_last().len() ==> (#[trigger] s.drop_last()[j]).client_order_id@
                != s.drop_last()[i].client_order_id@);
        lemma_orders_map_update_last(s.drop_last(), i, r);
        assert(s[s.len() - 1].client_order_id@ != r.client_order_id@);
    }
}

fn str_equal(a: &str, b: &str) -> (r: bool)
    ensures
        r == (a@ == b@),
{
    let n = a.unicode_len();
    let m = b.unicode_len();
    if n != m {
        return false;
    }
    let mut i: usize = 0;
    while i < n
        invariant
            0 <= i <= n,
            n == a@.len() == b@.len(),
            forall|j: int| 0 <= j < i ==> a@[j] == b@[j],
        decreases n - i,
    {
        if a.get_char(i) != b.get_char(i) {
            return false;
        }
        i = i + 1;
    }
    proof {
        assert(a@ =~= b@);
    }
    true
}

/// In-memory execution client: echoes each order back as sent and keeps
/// the reports for later cancellation and queries.
#[derive(Debug)]
pub struct MockExecutionClient {
    orders: Vec<ExecutionReport>,
}

/// The report that sending `order` produces: the order echoed back as
/// sent, with a venue id derived from the client id and no fill yet.
pub open spec fn sent_report_spec(order: OrderRequestV, now_micros: u64) -> ExecutionReportV {
    ExecutionReportV {
        client_order_id: order.client_order_id,
        exchange_order_id: Some("ex_"@ + order.client_order_id),
        status: OrderStatus::Sent,
        executed_quantity: 0,
        avg_price: match order.price {
            Some(p) => p,
            None => 0,
        },
        updated_at: now_micros,
    }
}

/// A report after cancellation: the same report, now cancelled.
pub open spec fn cancelled_report_spec(rep: ExecutionReportV, now_micros: u64) -> ExecutionReportV {
    ExecutionReportV { status: OrderStatus::Cancelled, updated_at: now_micros, ..rep }
}

impl View for MockExecutionClient {
    type V = Map<Seq<char>, ExecutionReportV>;

    closed spec fn view(&self) -> Map<Seq<char>, ExecutionReportV> {
        orders_map(self.orders@)
    }
}

impl MockExecutionClient {
    pub fn new() -> (r: Self)
        ensures
            r@ == Map::<Seq<char>, ExecutionReportV>::empty(),
    {
        let r = MockExecutionClient { orders: Vec::new() };
        proof {
            assert(r@ =~= Map::<Seq<char>, ExecutionReportV>::empty());
        }
        r
    }

    /// The index of the current report for `id`, if any: the latest entry
    /// under that id.
    fn find_last(&self, id: &str) -> (r: Option<usize>)
        ensures
            match r {
                Some(i) => {
                    &&& i < self.orders@.len()
                    &&& self.orders@[i as int].client_order_id@ == id@
                    &&& forall|j: int|
                        i < j < self.orders@.len() ==> (#[trigger] self.orders@[j]).client_order_id@
                            != id@
                },
                None => forall|j: int|
                    0 <= j < self.orders@.len() ==> (#[trigger] self.orders@[j]).client_order_id@
                        != id@,
            },
    {
        let mut i: usize = self.orders.len();
        while i > 0
            invariant
                0 <= i <= self.orders@.len(),
                forall|j: int|
                    i <= j < self.orders@.len() ==> (#[trigger] self.orders@[j]).client_order_id@
                        != id@,
            decreases i,
        {
            i = i - 1;
            if str_equal(self.orders[i].client_order_id.as_str(), id) {
                return Some(i);
            }
        }
        None
    }
}

impl ExecutionClient for MockExecutionClient {
    type Error = ExecutionError;

    /// Sending always succeeds: the result is the sent-report for the
    /// order, and the store maps the order's id to that report.
    open spec fn send_order_ens(
        pre: Self,
        post: Self,
        order: OrderRequestV,
        now_micros: u64,
        r: Result<ExecutionReport, ExecutionError>,
    ) -> bool {
        &&& post@ == pre@.insert(order.client_order_id, sent_report_spec(order, now_micros))
        &&& (r matches Ok(rep) && rep@ == sent_report_spec(order, now_micros))
    }

    /// Cancelling a known id marks its report cancelled and returns it;
    /// an unknown id fails with not-found and changes nothing.
    open spec fn cancel_order_ens(
        pre: Self,
        post: Self,
        client_order_id: Seq<char>,
        now_micros: u64,
        r: Result<ExecutionReport, ExecutionError>,
    ) -> bool {
        if pre@.contains_key(client_order_id) {
            let rep = cancelled_report_spec(pre@[client_order_id], now_micros);
            &&& post@ == pre@.insert(client_order_id, rep)
            &&& (r matches Ok(rr) && rr@ == rep)
        } else {
            &&& post@ == pre@
            &&& (r matches Err(e) && e == ExecutionError::OrderNotFound)
        }
    }

    /// Querying a known id returns its current report; an unknown id
    /// fails with not-found.
    open spec fn order_status_ens(
        &self,
        client_order_id: Seq<char>,
        r: Result<ExecutionReport, ExecutionError>,
    ) -> bool {
        if self@.contains_key(client_order_id) {
            r matches Ok(rr) && rr@ == self@[client_order_id]
        } else {
            r matches Err(e) && e == ExecutionError::OrderNotFound
        }
    }

    fn send_order(&mut self, order: OrderRequest, now_micros: u64) -> (r: Result<
        ExecutionReport,
        ExecutionError,
    >) {
        let exchange_order_id = String::from_str("ex_").concat(order.client_order_id.as_str());
        let report = ExecutionReport {
            client_order_id: order.client_order_id.clone(),
            exchange_order_id: Some(exchange_order_id),
            status: OrderStatus::Sent,
            executed_quantity: 0,
            avg_price: match order.price {
                Some(p) => p,
                None => 0,
            },
            updated_at: now_micros,
        };
        proof {
            assert(report@ == sent_report_spec(order@, now_micros));
        }
        let result = report.clone();
        proof {
            lemma_orders_map_push(self.orders@, report);
        }
        self.orders.push(report);
        Ok(result)
    }

    fn cancel_order(&mut self, client_order_id: &str, now_micros: u64) -> (r: Result<
        ExecutionReport,
        ExecutionError,
    >) {
        match self.find_last(client_order_id) {
            Some(i) => {
                proof {
                    lemma_orders_map_last_match(self.orders@, i as int);
                }
                let mut report = self.orders[i].clone();
                report.status = OrderStatus::Cancelled;
                report.updated_at = now_micros;
                proof {
                    lemma_orders_map_update_last(self.orders@, i as int, report);
                }
                let result = report.clone();
                self.orders[i] = report;
                Ok(result)
            },
            None => {
                proof {
                    lemma_orders_map_absent(self.orders@, client_order_id@);
                }
                Err(ExecutionError::OrderNotFound)
            },
        }
    }

    fn get_order_status(&self, client_order_id: &str) -> (r: Result<
        ExecutionReport,
        ExecutionError,
    >) {
        match self.find_last(client_order_id) {
            Some(i) => {
                proof {
                    lemma_orders_map_last_match(self.orders@, i as int);
                }
                Ok(self.orders[i].clone())
            },
            None => {
                proof {
                    lemma_orders_map_absent(self.orders@, client_order_id@);
                }
                Err(ExecutionError::OrderNotFound)
            },
        }
    }
}

} // verus!
