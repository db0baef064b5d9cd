use wrun::costs::{compute_rows, layout, Row, SubnetFees, Transaction};

fn fees(scale: u128) -> SubnetFees {
    SubnetFees {
        canister_creation: 100 * scale,
        compute_percent_second: 2 * scale,
        execution_base_wasm32: 5 * scale,
        execution_billion_wasm32: 405 * scale,
        execution_base_wasm64: 5 * scale,
        execution_billion_wasm64: 805 * scale,
        xnet_call: 26 * scale,
        xnet_byte: scale,
        ingress_message: 12 * scale,
        ingress_byte: 3 * scale,
        gib_storage_second: 127 * scale,
        http_base: 49 * scale,
        http_one_request_byte: 49 * scale + 5,
        http_one_response_byte: 49 * scale + 10,
        ecdsa_signature: 1000 * scale,
        schnorr_signature: 1001 * scale,
        vetkd_derivation: 1002 * scale,
    }
}

fn data(row: &Row) -> (&'static str, &Vec<u128>) {
    match row {
        Row::Data { name, values } => (name, values),
        Row::Separator => panic!("separator where a data row was expected"),
    }
}

#[test]
fn rows_follow_the_layout() {
    let all = vec![fees(1), fees(2), fees(5)];
    let rows = compute_rows(&all);
    assert_eq!(rows.len(), 19);
    assert!(matches!(rows[11], Row::Separator));
    assert!(matches!(rows[15], Row::Separator));
    let names: Vec<&str> = rows
        .iter()
        .filter_map(|r| match r {
            Row::Data { name, .. } => Some(*name),
            Row::Separator => None,
        })
        .collect();
    assert_eq!(
        names,
        vec![
            "Canister creation",
            "Compute 1% allocated per second",
            "Update message execution (wasm32)",
            "Update message execution (wasm64)",
            "1B executed instructions (wasm32)",
            "1B executed instructions (wasm64)",
            "Xnet call",
            "Xnet byte transmission",
            "Ingress message reception",
            "Ingress byte reception",
            "GiB storage per second",
            "HTTPS outcall (per call)",
            "HTTPS outcall request (per byte)",
            "HTTPS outcall response (per byte)",
            "tECDSA signing (secp256k1)",
            "tSchnorr signing (bip340secp256k1)",
            "vetKD key derivation (bls12_381_g2)",
        ]
    );
}

#[test]
fn values_per_subnet_in_order() {
    let all = vec![fees(1), fees(2), fees(5)];
    let rows = compute_rows(&all);
    assert_eq!(data(&rows[0]).1, &vec![100, 200, 500]);
    assert_eq!(data(&rows[2]).1, &vec![5, 10, 25]);
    assert_eq!(data(&rows[10]).1, &vec![127, 254, 635]);
    assert_eq!(data(&rows[18]).1, &vec![1002, 2004, 5010]);
}

#[test]
fn per_unit_rows_are_differences() {
    let all = vec![fees(1), fees(3)];
    let rows = compute_rows(&all);
    assert_eq!(data(&rows[4]).1, &vec![400, 1200]);
    assert_eq!(data(&rows[5]).1, &vec![800, 2400]);
    assert_eq!(data(&rows[12]).1, &vec![49, 147]);
    assert_eq!(data(&rows[13]).1, &vec![5, 5]);
    assert_eq!(data(&rows[14]).1, &vec![10, 10]);
}

#[test]
fn no_subnets_gives_empty_value_lists() {
    let rows = compute_rows(&[]);
    assert_eq!(rows.len(), 19);
    assert!(data(&rows[0]).1.is_empty());
}

#[test]
fn consistency_check() {
    assert!(fees(1).is_consistent());
    let mut f = fees(1);
    f.execution_billion_wasm64 = 1;
    assert!(!f.is_consistent());
    let mut g = fees(1);
    g.http_one_response_byte = 0;
    assert!(!g.is_consistent());
}

#[test]
fn layout_and_transactions() {
    let l = layout();
    assert_eq!(l.len(), 19);
    assert_eq!(l[4], Some(Transaction::InstructionsWasm32));
    assert_eq!(l[11], None);
    assert_eq!(Transaction::XnetByte.label(), "Xnet byte transmission");
    assert_eq!(Transaction::HttpsRequestByte.cost(&fees(2)), 5);
}

#[test]
fn rows_of_joined_subnets() {
    let a = vec![fees(1), fees(2)];
    let b = vec![fees(7)];
    let joined: Vec<SubnetFees> = a.iter().chain(b.iter()).cloned().collect();
    let (ra, rb, rab) = (compute_rows(&a), compute_rows(&b), compute_rows(&joined));
    for i in 0..19 {
        match (&ra[i], &rb[i], &rab[i]) {
            (Row::Separator, Row::Separator, Row::Separator) => {}
            (Row::Data { name: na, values: va }, Row::Data { name: nb, values: vb }, Row::Data { name: nab, values: vab }) => {
                assert_eq!(na, nab);
                assert_eq!(nb, nab);
                let mut joined_values = va.clone();
                joined_values.extend_from_slice(vb);
                assert_eq!(&joined_values, vab);
            }
            _ => panic!("rows differ in kind"),
        }
    }
}
