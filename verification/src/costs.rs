//! The rows of the cycles price breakdown, built from the fees that the
//! cycles account manager quotes for each subnet size.
use vstd::prelude::*;

verus! {

/// The fees quoted for one subnet size, each in cycles.
///
/// The instruction and byte rows of the table are differences of two
/// quotes, so both quotes are kept.
#[derive(Clone, Copy, Debug, PartialEq, Eq)]
pub struct SubnetFees {
    /// Fee for creating a canister.
    pub canister_creation: u128,
    /// Cost of a 1% compute allocation held for one second.
    pub compute_percent_second: u128,
    /// Execution cost of an update message running no instructions (wasm32).
    pub execution_base_wasm32: u128,
    /// Execution cost of an update message running one billion instructions (wasm32).
    pub execution_billion_wasm32: u128,
    /// Execution cost of an update message running no instructions (wasm64).
    pub execution_base_wasm64: u128,
    /// Execution cost of an update message running one billion instructions (wasm64).
    pub execution_billion_wasm64: u128,
    /// Fee for performing a cross-net call.
    pub xnet_call: u128,
    /// Fee for transmitting one byte in a cross-net call.
    pub xnet_byte: u128,
    /// Fee for receiving an ingress message.
    pub ingress_message: u128,
    /// Fee for receiving one ingress byte.
    pub ingress_byte: u128,
    /// Cost of storing one GiB for one second.
    pub gib_storage_second: u128,
    /// HTTPS outcall fee with an empty request and an empty response limit.
    pub http_base: u128,
    /// HTTPS outcall fee with a one-byte request and an empty response limit.
    pub http_one_request_byte: u128,
    /// HTTPS outcall fee with an empty request and a one-byte response limit.
    pub http_one_response_byte: u128,
    /// Fee for a threshold ECDSA signature (secp256k1).
    pub ecdsa_signature: u128,
    /// Fee for a threshold Schnorr signature (bip340secp256k1).
    pub schnorr_signature: u128,
    /// Fee for a vetKD key derivation (bls12_381_g2).
    pub vetkd_derivation: u128,
}

/// The transactions that the table prices, in the order of the table.
#[derive(Clone, Copy, Debug, PartialEq, Eq, Structural)]
pub enum Transaction {
    CanisterCreation,
    ComputeAllocation,
    UpdateMessageWasm32,
    UpdateMessageWasm64,
    InstructionsWasm32,
    InstructionsWasm64,
    XnetCall,
    XnetByte,
    IngressMessage,
    IngressByte,
    GibStorage,
    HttpsOutcall,
    HttpsRequestByte,
    HttpsResponseByte,
    EcdsaSigning,
    SchnorrSigning,
    VetkdDerivation,
}

/// A line of the table: a priced transaction with one value per subnet
/// size, or an empty line between groups of transactions.
pub enum Row {
    Data { name: &'static str, values: Vec<u128> },
    Separator,
}

/// Whether the differences that the table takes between two quotes are
/// never negative: one billion instructions cost at least as much as none,
/// and a one-byte request or response at least as much as an empty one.
pub open spec fn fees_consistent(f: SubnetFees) -> bool {
    &&& f.execution_billion_wasm32 >= f.execution_base_wasm32
    &&& f.execution_billion_wasm64 >= f.execution_base_wasm64
    &&& f.http_one_request_byte >= f.http_base
    &&& f.http_one_response_byte >= f.http_base
}

/// The label of a transaction in the table.
pub open spec fn transaction_label(t: Transaction) -> Seq<char> {
    match t {
        Transaction::CanisterCreation => "Canister creation"@,
        Transaction::ComputeAllocation => "Compute 1% allocated per second"@,
        Transaction::UpdateMessageWasm32 => "Update message execution (wasm32)"@,
        Transaction::UpdateMessageWasm64 => "Update message execution (wasm64)"@,
        Transaction::InstructionsWasm32 => "1B executed instructions (wasm32)"@,
        Transaction::InstructionsWasm64 => "1B executed instructions (wasm64)"@,
        Transaction::XnetCall => "Xnet call"@,
        Transaction::XnetByte => "Xnet byte transmission"@,
        Transaction::IngressMessage => "Ingress message reception"@,
        Transaction::IngressByte => "Ingress byte reception"@,
        Transaction::GibStorage => "GiB storage per second"@,
        Transaction::HttpsOutcall => "HTTPS outcall (per call)"@,
        Transaction::HttpsRequestByte => "HTTPS outcall request (per byte)"@,
        Transaction::HttpsResponseByte => "HTTPS outcall response (per byte)"@,
        Transaction::EcdsaSigning => "tECDSA signing (secp256k1)"@,
        Transaction::SchnorrSigning => "tSchnorr signing (bip340secp256k1)"@,
        Transaction::VetkdDerivation => "vetKD key derivation (bls12_381_g2)"@,
    }
}

/// The price of a transaction on a subnet with the given fees: the quoted
/// fee, or for the per-instruction and per-byte rows the difference between
/// the quote with one unit and the quote with none.
pub open spec fn transaction_cost(t: Transaction, f: SubnetFees) -> int {
    match t {
        Transaction::CanisterCreation => f.canister_creation as int,
        Transaction::ComputeAllocation => f.compute_percent_second as int,
        Transaction::UpdateMessageWasm32 => f.execution_base_wasm32 as int,
        Transaction::UpdateMessageWasm64 => f.execution_base_wasm64 as int,
        Transaction::InstructionsWasm32 => f.execution_billion_wasm32 - f.execution_base_wasm32,
        Transaction::InstructionsWasm64 => f.execution_billion_wasm64 - f.execution_base_wasm64,
        Transaction::XnetCall => f.xnet_call as int,
        Transaction::XnetByte => f.xnet_byte as int,
        Transaction::IngressMessage => f.ingress_message as int,
        Transaction::IngressByte => f.ingress_byte as int,
        Transaction::GibStorage => f.gib_storage_second as int,
        Transaction::HttpsOutcall => f.http_base as int,
        Transaction::HttpsRequestByte => f.http_one_request_byte - f.http_base,
        Transaction::HttpsResponseByte => f.http_one_response_byte - f.http_base,
        Transaction::EcdsaSigning => f.ecdsa_signature as int,
        Transaction::SchnorrSigning => f.schnorr_signature as int,
        Transaction::VetkdDerivation => f.vetkd_derivation as int,
    }
}

/// The lines of the table from top to bottom: `None` is an empty line.
pub open spec fn table_layout() -> Seq<Option<Transaction>> {
    seq![
        Some(Transaction::CanisterCreation),
        Some(Transaction::ComputeAllocation),
        Some(Transaction::UpdateMessageWasm32),
        Some(Transaction::UpdateMessageWasm64),
        Some(Transaction::InstructionsWasm32),
        Some(Transaction::InstructionsWasm64),
        Some(Transaction::XnetCall),
        Some(Transaction::XnetByte),
        Some(Transaction::IngressMessage),
        Some(Transaction::IngressByte),
        Some(Transaction::GibStorage),
        None,
        Some(Transaction::HttpsOutcall),
        Some(Transaction::HttpsRequestByte),
        Some(Transaction::HttpsResponseByte),
        None,
        Some(Transaction::EcdsaSigning),
        Some(Transaction::SchnorrSigning),
        Some(Transaction::VetkdDerivation),
    ]
}

/// Whether `row` is the line that `entry` of the layout describes for the
/// subnets whose fees are `fees`, in order.
pub open spec fn row_matches(row: Row, entry: Option<Transaction>, fees: Seq<SubnetFees>) -> bool {
    match entry {
        None => row is Separator,
        Some(t) => match row {
            Row::Data { name, values } => {
                &&& name@ == transaction_label(t)
                &&& values@.len() == fees.len()
                &&& forall|k: int|
                    0 <= k < fees.len() ==> #[trigger] values@[k] as int == transaction_cost(
                        t,
                        fees[k],
                    )
            },
            Row::Separator => false,
        },
    }
}

impl SubnetFees {
    /// Whether the quotes are consistent (see `fees_consistent`).
    pub fn is_consistent(&self) -> (res: bool)
        ensures
            res == fees_consistent(*self),
    {
        self.execution_billion_wasm32 >= self.execution_base_wasm32
            && self.execution_billion_wasm64 >= self.execution_base_wasm64
            && self.http_one_request_byte >= self.http_base
            && self.http_one_response_byte >= self.http_base
    }
}

impl Transaction {
    /// The label of the transaction in the table.
    pub fn label(&self) -> (res: &'static str)
        ensures
            res@ == transaction_label(*self),
    {
        match self {
            Transaction::CanisterCreation => "Canister creation",
            Transaction::ComputeAllocation => "Compute 1% allocated per second",
            Transaction::UpdateMessageWasm32 => "Update message execution (wasm32)",
            Transaction::UpdateMessageWasm64 => "Update message execution (wasm64)",
            Transaction::InstructionsWasm32 => "1B executed instructions (wasm32)",
            Transaction::InstructionsWasm64 => "1B executed instructions (wasm64)",
            Transaction::XnetCall => "Xnet call",
            Transaction::XnetByte => "Xnet byte transmission",
            Transaction::IngressMessage => "Ingress message reception",
            Transaction::IngressByte => "Ingress byte reception",
            Transaction::GibStorage => "GiB storage per second",
            Transaction::HttpsOutcall => "HTTPS outcall (per call)",
            Transaction::HttpsRequestByte => "HTTPS outcall request (per byte)",
            Transaction::HttpsResponseByte => "HTTPS outcall response (per byte)",
            Transaction::EcdsaSigning => "tECDSA signing (secp256k1)",
            Transaction::SchnorrSigning => "tSchnorr signing (bip340secp256k1)",
            Transaction::VetkdDerivation => "vetKD key derivation (bls12_381_g2)",
        }
    }

    /// The price of the transaction on a subnet with the fees `f`.
    pub fn cost(&self, f: &SubnetFees) -> (res: u128)
        requires
            fees_consistent(*f),
        ensures
            res as int == transaction_cost(*self, *f),
    {
        match self {
            Transaction::CanisterCreation => f.canister_creation,
            Transaction::ComputeAllocation => f.compute_percent_second,
            Transaction::UpdateMessageWasm32 => f.execution_base_wasm32,
            Transaction::UpdateMessageWasm64 => f.execution_base_wasm64,
            Transaction::InstructionsWasm32 => f.execution_billion_wasm32 - f.execution_base_wasm32,
            Transaction::InstructionsWasm64 => f.execution_billion_wasm64 - f.execution_base_wasm64,
            Transaction::XnetCall => f.xnet_call,
            Transaction::XnetByte => f.xnet_byte,
            Transaction::IngressMessage => f.ingress_message,
            Transaction::IngressByte => f.ingress_byte,
            Transaction::GibStorage => f.gib_storage_second,
            Transaction::HttpsOutcall => f.http_base,
            Transaction::HttpsRequestByte => f.http_one_request_byte - f.http_base,
            Transaction::HttpsResponseByte => f.http_one_response_byte - f.http_base,
            Transaction::EcdsaSigning => f.ecdsa_signature,
            Transaction::SchnorrSigning => f.schnorr_signature,
            Transaction::VetkdDerivation => f.vetkd_derivation,
        }
    }
}

/// The lines of the table, as `table_layout` lists them.
pub fn layout() -> (res: Vec<Option<Transaction>>)
    ensures
        res@ == table_layout(),
{
    let res = vec![
        Some(Transaction::CanisterCreation),
        Some(Transaction::ComputeAllocation),
        Some(Transaction::UpdateMessageWasm32),
        Some(Transaction::UpdateMessageWasm64),
        Some(Transaction::InstructionsWasm32),
        Some(Transaction::InstructionsWasm64),
        Some(Transaction::XnetCall),
        Some(Transaction::XnetByte),
        Some(Transaction::IngressMessage),
        Some(Transaction::IngressByte),
        Some(Transaction::GibStorage),
        None,
        Some(Transaction::HttpsOutcall),
        Some(Transaction::HttpsRequestByte),
        Some(Transaction::HttpsResponseByte),
        None,
        Some(Transaction::EcdsaSigning),
        Some(Transaction::SchnorrSigning),
        Some(Transaction::VetkdDerivation),
    ];
    assert(res@ =~= table_layout());
    res
}

/// The prices of `t` on each subnet, in the order of `fees`.
pub fn transaction_values(t: Transaction, fees: &[SubnetFees]) -> (res: Vec<u128>)
    requires
        forall|k: int| 0 <= k < fees@.len() ==> fees_consistent(#[trigger] fees@[k]),
    ensures
        res@.len() == fees@.len(),
        forall|k: int|
            0 <= k < fees@.len() ==> #[trigger] res@[k] as int == transaction_cost(t, fees@[k]),
{
    let mut values: Vec<u128> = Vec::new();
    let mut k: usize = 0;
    while k < fees.len()
        invariant
            k <= fees@.len(),
            values@.len() == k,
            forall|j: int| 0 <= j < fees@.len() ==> fees_consistent(#[trigger] fees@[j]),
            forall|j: int|
                0 <= j < k ==> #[trigger] values@[j] as int == transaction_cost(t, fees@[j]),
        decreases fees.len() - k,
    {
        let v = t.cost(&fees[k]);
        values.push(v);
        k = k + 1;
    }
    values
}

/// The rows of the price table: for each line of `table_layout`, an empty
/// line or the transaction's label with its price on each subnet, where
/// `fees[k]` holds the quotes for the `k`-th subnet size.
pub fn compute_rows(fees: &[SubnetFees]) -> (rows: Vec<Row>)
    requires
        forall|k: int| 0 <= k < fees@.len() ==> fees_consistent(#[trigger] fees@[k]),
    ensures
        rows@.len() == table_layout().len(),
        forall|i: int|
            0 <= i < rows@.len() ==> row_matches(#[trigger] rows@[i], table_layout()[i], fees@),
        price_breakdown(rows@, fees@),
{
    let defs = layout();
    let mut rows: Vec<Row> = Vec::new();
    let mut i: usize = 0;
    while i < defs.len()
        invariant
            defs@ == table_layout(),
            i <= defs@.len(),
            rows@.len() == i,
            forall|k: int| 0 <= k < fees@.len() ==> fees_consistent(#[trigger] fees@[k]),
            forall|j: int| 0 <= j < i ==> row_matches(#[trigger] rows@[j], table_layout()[j], fees@),
        decreases defs.len() - i,
    {
        match defs[i] {
            None => {
                rows.push(Row::Separator);
            },
            Some(t) => {
                let values = transaction_values(t, fees);
                let name = t.label();
                rows.push(Row::Data { name, values });
            },
        }
        i = i + 1;
    }
    proof {
        law_price_breakdown(rows@, fees@);
    }
    rows
}

/// The label of a row, `None` for a separator.
pub open spec fn row_label(r: Row) -> Option<Seq<char>> {
    match r {
        Row::Data { name, values: _ } => Some(name@),
        Row::Separator => None,
    }
}

/// The values of a row, none for a separator.
pub open spec fn row_values(r: Row) -> Seq<u128> {
    match r {
        Row::Data { name: _, values } => values@,
        Row::Separator => Seq::empty(),
    }
}

/// Rows computed for two lists of subnets side by side are the rows of the
/// joined list: line by line the same kind and label, and the values of
/// the first list followed by those of the second.
pub proof fn law_rows_concat(
    a: Seq<SubnetFees>,
    b: Seq<SubnetFees>,
    ra: Seq<Row>,
    rb: Seq<Row>,
    rab: Seq<Row>,
)
    requires
        ra.len() == table_layout().len(),
        rb.len() == table_layout().len(),
        rab.len() == table_layout().len(),
        forall|i: int| 0 <= i < ra.len() ==> row_matches(#[trigger] ra[i], table_layout()[i], a),
        forall|i: int| 0 <= i < rb.len() ==> row_matches(#[trigger] rb[i], table_layout()[i], b),
        forall|i: int|
            0 <= i < rab.len() ==> row_matches(#[trigger] rab[i], table_layout()[i], a + b),
    ensures
        forall|i: int|
            0 <= i < rab.len() ==> {
                &&& row_label(#[trigger] rab[i]) == row_label(ra[i])
                &&& row_label(rab[i]) == row_label(rb[i])
                &&& row_values(rab[i]) == row_values(ra[i]) + row_values(rb[i])
            },
{
    assert forall|i: int| 0 <= i < rab.len() implies {
        &&& row_label(#[trigger] rab[i]) == row_label(ra[i])
        &&& row_label(rab[i]) == row_label(rb[i])
        &&& row_values(rab[i]) == row_values(ra[i]) + row_values(rb[i])
    } by {
        assert(row_matches(ra[i], table_layout()[i], a));
        assert(row_matches(rb[i], table_layout()[i], b));
        assert(row_matches(rab[i], table_layout()[i], a + b));
        match table_layout()[i] {
            None => {
                assert(row_values(rab[i]) =~= row_values(ra[i]) + row_values(rb[i]));
            },
            Some(t) => {
                let va = row_values(ra[i]);
                let vb = row_values(rb[i]);
                let vab = row_values(rab[i]);
                assert forall|k: int| 0 <= k < vab.len() implies #[trigger] vab[k] == (va + vb)[k] by {
                    if k < a.len() {
                        assert((a + b)[k] == a[k]);
                        assert(vab[k] as int == transaction_cost(t, (a + b)[k]));
                        assert(va[k] as int == transaction_cost(t, a[k]));
                    } else {
                        assert((a + b)[k] == b[k - a.len()]);
                        assert(vab[k] as int == transaction_cost(t, (a + b)[k]));
                        assert(vb[k - a.len()] as int == transaction_cost(t, b[k - a.len()]));
                    }
                }
                assert(vab =~= va + vb);
            },
        }
    }
}


/// Whether `row` is labelled `label` and shows, for each subnet in order,
/// the fee that `fee` picks from that subnet's quotes.
pub open spec fn shows_fee(
    row: Row,
    label: Seq<char>,
    fees: Seq<SubnetFees>,
    fee: spec_fn(SubnetFees) -> int,
) -> bool {
    match row {
        Row::Data { name, values } => {
            &&& name@ == label
            &&& values@.len() == fees.len()
            &&& forall|k: int| 0 <= k < fees.len() ==> #[trigger] values@[k] as int == fee(fees[k])
        },
        Row::Separator => false,
    }
}

/// The price breakdown, line by line, as the published table reads: each
/// label with the quote it prices (the per-instruction and per-byte lines
/// as the difference of two quotes), and empty lines before the HTTPS
/// outcalls and before the threshold signatures.
pub open spec fn price_breakdown(rows: Seq<Row>, fees: Seq<SubnetFees>) -> bool {
    &&& rows.len() == 19
    &&& shows_fee(rows[0], "Canister creation"@, fees, |f: SubnetFees| f.canister_creation as int)
    &&& shows_fee(rows[1], "Compute 1% allocated per second"@, fees, |f: SubnetFees| f.compute_percent_second as int)
    &&& shows_fee(rows[2], "Update message execution (wasm32)"@, fees, |f: SubnetFees| f.execution_base_wasm32 as int)
    &&& shows_fee(rows[3], "Update message execution (wasm64)"@, fees, |f: SubnetFees| f.execution_base_wasm64 as int)
    &&& shows_fee(rows[4], "1B executed instructions (wasm32)"@, fees, |f: SubnetFees| f.execution_billion_wasm32 - f.execution_base_wasm32)
    &&& shows_fee(rows[5], "1B executed instructions (wasm64)"@, fees, |f: SubnetFees| f.execution_billion_wasm64 - f.execution_base_wasm64)
    &&& shows_fee(rows[6], "Xnet call"@, fees, |f: SubnetFees| f.xnet_call as int)
    &&& shows_fee(rows[7], "Xnet byte transmission"@, fees, |f: SubnetFees| f.xnet_byte as int)
    &&& shows_fee(rows[8], "Ingress message reception"@, fees, |f: SubnetFees| f.ingress_message as int)
    &&& shows_fee(rows[9], "Ingress byte reception"@, fees, |f: SubnetFees| f.ingress_byte as int)
    &&& shows_fee(rows[10], "GiB storage per second"@, fees, |f: SubnetFees| f.gib_storage_second as int)
    &&& rows[11] is Separator
    &&& shows_fee(rows[12], "HTTPS outcall (per call)"@, fees, |f: SubnetFees| f.http_base as int)
    &&& shows_fee(rows[13], "HTTPS outcall request (per byte)"@, fees, |f: SubnetFees| f.http_one_request_byte - f.http_base)
    &&& shows_fee(rows[14], "HTTPS outcall response (per byte)"@, fees, |f: SubnetFees| f.http_one_response_byte - f.http_base)
    &&& rows[15] is Separator
    &&& shows_fee(rows[16], "tECDSA signing (secp256k1)"@, fees, |f: SubnetFees| f.ecdsa_signature as int)
    &&& shows_fee(rows[17], "tSchnorr signing (bip340secp256k1)"@, fees, |f: SubnetFees| f.schnorr_signature as int)
    &&& shows_fee(rows[18], "vetKD key derivation (bls12_381_g2)"@, fees, |f: SubnetFees| f.vetkd_derivation as int)
}

/// Rows that follow the layout are the price breakdown: every line carries
/// the label of its transaction together with that transaction's own fee,
/// so no line shows the quote of another transaction.
pub proof fn law_price_breakdown(rows: Seq<Row>, fees: Seq<SubnetFees>)
    requires
        rows.len() == table_layout().len(),
        forall|i: int| 0 <= i < rows.len() ==> row_matches(#[trigger] rows[i], table_layout()[i], fees),
    ensures
        price_breakdown(rows, fees),
{
    assert(row_matches(rows[0], table_layout()[0], fees));
    assert(row_matches(rows[1], table_layout()[1], fees));
    assert(row_matches(rows[2], table_layout()[2], fees));
    assert(row_matches(rows[3], table_layout()[3], fees));
    assert(row_matches(rows[4], table_layout()[4], fees));
    assert(row_matches(rows[5], table_layout()[5], fees));
    assert(row_matches(rows[6], table_layout()[6], fees));
    assert(row_matches(rows[7], table_layout()[7], fees));
    assert(row_matches(rows[8], table_layout()[8], fees));
    assert(row_matches(rows[9], table_layout()[9], fees));
    assert(row_matches(rows[10], table_layout()[10], fees));
    assert(row_matches(rows[11], table_layout()[11], fees));
    assert(row_matches(rows[12], table_layout()[12], fees));
    assert(row_matches(rows[13], table_layout()[13], fees));
    assert(row_matches(rows[14], table_layout()[14], fees));
    assert(row_matches(rows[15], table_layout()[15], fees));
    assert(row_matches(rows[16], table_layout()[16], fees));
    assert(row_matches(rows[17], table_layout()[17], fees));
    assert(row_matches(rows[18], table_layout()[18], fees));
}

/// The price of each transaction is the quote of its own kind, or for the
/// per-unit transactions the difference between the quote with one unit
/// and the quote with none.
pub proof fn law_transaction_fees(f: SubnetFees)
    ensures
        transaction_cost(Transaction::CanisterCreation, f) == f.canister_creation,
        transaction_cost(Transaction::ComputeAllocation, f) == f.compute_percent_second,
        transaction_cost(Transaction::UpdateMessageWasm32, f) == f.execution_base_wasm32,
        transaction_cost(Transaction::UpdateMessageWasm64, f) == f.execution_base_wasm64,
        transaction_cost(Transaction::InstructionsWasm32, f) == f.execution_billion_wasm32
            - f.execution_base_wasm32,
        transaction_cost(Transaction::InstructionsWasm64, f) == f.execution_billion_wasm64
            - f.execution_base_wasm64,
        transaction_cost(Transaction::XnetCall, f) == f.xnet_call,
        transaction_cost(Transaction::XnetByte, f) == f.xnet_byte,
        transaction_cost(Transaction::IngressMessage, f) == f.ingress_message,
        transaction_cost(Transaction::IngressByte, f) == f.ingress_byte,
        transaction_cost(Transaction::GibStorage, f) == f.gib_storage_second,
        transaction_cost(Transaction::HttpsOutcall, f) == f.http_base,
        transaction_cost(Transaction::HttpsRequestByte, f) == f.http_one_request_byte - f.http_base,
        transaction_cost(Transaction::HttpsResponseByte, f) == f.http_one_response_byte - f.http_base,
        transaction_cost(Transaction::EcdsaSigning, f) == f.ecdsa_signature,
        transaction_cost(Transaction::SchnorrSigning, f) == f.schnorr_signature,
        transaction_cost(Transaction::VetkdDerivation, f) == f.vetkd_derivation,
{
}

} // verus!
