use bitcoin::absolute::LockTime;
use bitcoin::transaction::Version;
use bitcoin::{Psbt, Transaction};
use rgb_lightning_node::bootstrap::RlnSignerError;
use rgb_lightning_node::signer::{BackendRequest, ExternalSigner, ExtractedTx};

fn empty_tx() -> Transaction {
    Transaction { version: Version::TWO, lock_time: LockTime::ZERO, input: vec![], output: vec![] }
}

#[test]
fn psbt_request_and_answer() {
    let psbt = Psbt::from_unsigned_tx(empty_tx()).unwrap();
    let BackendRequest::SignSpendableOutputsPsbt { descriptors, psbt: text } =
        ExternalSigner::sign_spendable_outputs_request(&vec![], &psbt)
    else {
        panic!("not a spendable outputs request");
    };
    assert!(descriptors.is_empty());
    assert_eq!(text, psbt.to_string());
    assert_eq!(ExternalSigner::read_signed_psbt(Ok(text)), Ok(psbt));
    assert_eq!(ExternalSigner::read_signed_psbt(Ok("not a psbt".to_string())), Err(()));
    assert_eq!(
        ExternalSigner::read_signed_psbt(Err(RlnSignerError::Unsupported("x".to_string()))),
        Err(())
    );
}

#[test]
fn extracting_the_transaction() {
    let psbt = Psbt::from_unsigned_tx(empty_tx()).unwrap();
    assert_eq!(ExternalSigner::spend_signed_psbt(psbt), Ok(empty_tx()));
    assert_eq!(ExternalSigner::accept_extracted_tx(ExtractedTx::Extracted(empty_tx())), Ok(empty_tx()));
    assert_eq!(
        ExternalSigner::accept_extracted_tx(ExtractedTx::MissingInputValue(empty_tx())),
        Ok(empty_tx())
    );
    assert_eq!(ExternalSigner::accept_extracted_tx(ExtractedTx::Refused), Err(()));
}
