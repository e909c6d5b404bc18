use dcbor::Date;
use provenance_mark::{MarkError, ProvenanceMark, ProvenanceMarkResolution};

fn bytes(n: usize) -> Vec<u8> {
    (0..n).map(|i| i as u8).collect()
}

#[test]
fn mark_holds_its_fields() {
    let date = Date::from_ymd(2023, 6, 20);
    let mark = ProvenanceMark::new(
        ProvenanceMarkResolution::Medium,
        vec![1; 8],
        vec![2; 8],
        vec![3; 8],
        41,
        date,
        Some(vec![0x65, 0x68, 0x65, 0x6c, 0x6c, 0x6f]),
    )
    .unwrap();
    assert_eq!(mark.res(), ProvenanceMarkResolution::Medium);
    assert_eq!(mark.key(), &vec![1u8; 8]);
    assert_eq!(mark.next_key(), &vec![2u8; 8]);
    assert_eq!(mark.chain_id(), &vec![3u8; 8]);
    assert_eq!(mark.seq(), 41);
    assert_eq!(mark.date(), date);
    assert_eq!(mark.info(), &Some(vec![0x65, 0x68, 0x65, 0x6c, 0x6c, 0x6f]));
    assert_eq!(mark.clone(), mark);
}

#[test]
fn mark_without_payload() {
    let mark = ProvenanceMark::new(
        ProvenanceMarkResolution::Low,
        bytes(4),
        bytes(4),
        bytes(4),
        0,
        Date::from_ymd(2024, 1, 1),
        None,
    )
    .unwrap();
    assert_eq!(mark.info(), &None);
}

#[test]
fn mark_rejects_a_key_of_the_wrong_length() {
    for res in [
        ProvenanceMarkResolution::Low,
        ProvenanceMarkResolution::Medium,
        ProvenanceMarkResolution::Quartile,
        ProvenanceMarkResolution::High,
    ] {
        let len = res.link_length();
        let date = Date::from_ymd(2023, 6, 20);
        assert_eq!(
            ProvenanceMark::new(res, bytes(len - 1), bytes(len), bytes(len), 0, date, None),
            Err(MarkError::InvalidKeyLength)
        );
        assert_eq!(
            ProvenanceMark::new(res, bytes(len + 1), bytes(len), bytes(len), 0, date, None),
            Err(MarkError::InvalidKeyLength)
        );
    }
}

#[test]
fn mark_rejects_a_next_key_of_the_wrong_length() {
    let date = Date::from_ymd(2023, 6, 20);
    assert_eq!(
        ProvenanceMark::new(
            ProvenanceMarkResolution::Low,
            bytes(4),
            bytes(8),
            bytes(4),
            0,
            date,
            None
        ),
        Err(MarkError::InvalidNextKeyLength)
    );
}

#[test]
fn mark_rejects_a_chain_id_of_the_wrong_length() {
    let date = Date::from_ymd(2023, 6, 20);
    assert_eq!(
        ProvenanceMark::new(
            ProvenanceMarkResolution::Quartile,
            bytes(16),
            bytes(16),
            bytes(0),
            0,
            date,
            None
        ),
        Err(MarkError::InvalidChainIdLength)
    );
}

#[test]
fn mark_reports_the_first_wrong_length() {
    let date = Date::from_ymd(2023, 6, 20);
    assert_eq!(
        ProvenanceMark::new(
            ProvenanceMarkResolution::Low,
            bytes(3),
            bytes(3),
            bytes(3),
            0,
            date,
            None
        ),
        Err(MarkError::InvalidKeyLength)
    );
    assert_eq!(
        ProvenanceMark::new(
            ProvenanceMarkResolution::Low,
            bytes(4),
            bytes(3),
            bytes(3),
            0,
            date,
            None
        ),
        Err(MarkError::InvalidNextKeyLength)
    );
}
