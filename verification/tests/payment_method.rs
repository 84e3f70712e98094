use invoice_payment::payment_method::PaymentMethod;
use invoice_payment::payment_method::PaymentMethodPaymentCard;
use invoice_payment::payment_method::PaymentMethodSEPADirectDebit;
use invoice_payment::payment_method::PaymentMethodUniversalBankTransaction;
use invoice_payment::payment_method::PaymentMethodUniversalBankTransactionBeneficiaryAccount;
use invoice_payment::payment_method::PaymentMethodUniversalBankTransactionBeneficiaryAccountBankCode;

#[test]
fn default() {
    assert_eq!(
        PaymentMethod { ..Default::default() }.to_xml(),
        "<PaymentMethod><NoPayment></NoPayment></PaymentMethod>"
    )
}

#[test]
fn no_payment() {
    assert_eq!(
        PaymentMethod::no_payment().to_xml(),
        "<PaymentMethod><NoPayment></NoPayment></PaymentMethod>"
    )
}

#[test]
fn sepa_direct_debit() {
    assert_eq!(
        PaymentMethod::sepa_direct_debit(PaymentMethodSEPADirectDebit {
            direct_debit_type: Some("B2B"),
            bic: Some("BKAUATWW"),
            iban: Some("AT491200011111111111"),
            bank_account_owner: Some("Test"),
            creditor_id: Some("AT12ZZZ00000000001"),
            mandate_reference: Some("123"),
            debit_collection_date: Some("2020-01-01"),
            ..Default::default()
        })
        .to_xml(),
        "<PaymentMethod><SEPADirectDebit><Type>B2B</Type><BIC>BKAUATWW</BIC><IBAN>AT491200011111111111</IBAN><BankAccountOwner>Test</BankAccountOwner><CreditorID>AT12ZZZ00000000001</CreditorID><MandateReference>123</MandateReference><DebitCollectionDate>2020-01-01</DebitCollectionDate></SEPADirectDebit></PaymentMethod>"
    )
}

#[test]
fn universal_bank_transaction() {
    assert_eq!(
        PaymentMethod::universal_bank_transaction(PaymentMethodUniversalBankTransaction {
            consolidator_payable: Some(true),
            beneficiary_account: Some(vec![
                PaymentMethodUniversalBankTransactionBeneficiaryAccount {
                    bank_name: Some("Bank"),
                    bank_code: Some(
                        PaymentMethodUniversalBankTransactionBeneficiaryAccountBankCode {
                            bank_code: 12000,
                            bank_code_type: "AT",
                        }
                    ),
                    bic: Some("BKAUATWW"),
                    bank_account_number: Some("11111111111"),
                    iban: Some("AT491200011111111111"),
                    bank_account_owner: Some("Name"),
                }
            ]),
            payment_reference: Some("123456789012"),
            payment_reference_checksum: Some("X"),
        })
        .to_xml(),
        "<PaymentMethod><UniversalBankTransaction ConsolidatorPayable=\"true\"><BeneficiaryAccount><BankName>Bank</BankName><BankCode BankCodeType=\"AT\">12000</BankCode><BIC>BKAUATWW</BIC><BankAccountNr>11111111111</BankAccountNr><IBAN>AT491200011111111111</IBAN><BankAccountOwner>Name</BankAccountOwner></BeneficiaryAccount><PaymentReference CheckSum=\"X\">123456789012</PaymentReference></UniversalBankTransaction></PaymentMethod>"
    )
}

#[test]
fn payment_card() {
    assert_eq!(
        PaymentMethod::payment_card(PaymentMethodPaymentCard {
            primary_account_number: "123456*4321",
            card_holder_name: Some("Name"),
        })
        .to_xml(),
        "<PaymentMethod><PaymentCard><PrimaryAccountNumber>123456*4321</PrimaryAccountNumber><CardHolderName>Name</CardHolderName></PaymentCard></PaymentMethod>"
    )
}

#[test]
fn other_payment() {
    assert_eq!(
        PaymentMethod::other_payment().to_xml(),
        "<PaymentMethod><OtherPayment></OtherPayment></PaymentMethod>"
    )
}

#[test]
fn bic_accepts_8_and_11_alphanumeric() {
    assert!(PaymentMethodSEPADirectDebit::new().with_bic("BKAUATWW").is_ok());
    assert!(PaymentMethodSEPADirectDebit::new().with_bic("RLNWATWWXXX").is_ok());
    assert!(PaymentMethodSEPADirectDebit::new().with_bic("12345678").is_ok());
    assert!(PaymentMethodUniversalBankTransactionBeneficiaryAccount::new()
        .with_bic("BKAUATWW")
        .is_ok());
}

#[test]
fn bic_rejects_other_shapes() {
    // 7 characters.
    let e = PaymentMethodSEPADirectDebit::new().with_bic("BKAUATW").unwrap_err();
    assert_eq!(e, "BIC BKAUATW is not 8 or 11 alphanumeric characters!");
    // A symbol among 8 characters.
    assert!(PaymentMethodSEPADirectDebit::new().with_bic("BKAUATW!").is_err());
    // 9, 10 and 12 characters.
    assert!(PaymentMethodSEPADirectDebit::new().with_bic("BKAUATWWX").is_err());
    assert!(PaymentMethodSEPADirectDebit::new().with_bic("BKAUATWWXX").is_err());
    assert!(PaymentMethodSEPADirectDebit::new().with_bic("BKAUATWWXXXX").is_err());
    assert!(PaymentMethodUniversalBankTransactionBeneficiaryAccount::new()
        .with_bic("BKAUATW")
        .is_err());
}

#[test]
fn date_is_checked_lexically_only() {
    // Calendar-invalid, lexically fine: accepted.
    assert!(PaymentMethodSEPADirectDebit::new()
        .with_debit_collection_date("2020-13-40")
        .is_ok());
    // Lexically wrong shapes: rejected.
    let e = PaymentMethodSEPADirectDebit::new()
        .with_debit_collection_date("2020/01/01")
        .unwrap_err();
    assert_eq!(e, "DebitCollectionDate 2020/01/01 doesn't match the shape YYYY-MM-DD!");
    assert!(PaymentMethodSEPADirectDebit::new().with_debit_collection_date("2020-1-1").is_err());
    assert!(PaymentMethodSEPADirectDebit::new().with_debit_collection_date("20200101").is_err());
    assert!(PaymentMethodSEPADirectDebit::new().with_debit_collection_date("2020-01-0a").is_err());
    assert!(PaymentMethodSEPADirectDebit::new().with_debit_collection_date("").is_err());
}

#[test]
fn masked_pan_acceptance() {
    assert!(PaymentMethodPaymentCard::new("123456*4321").is_ok());
    // Zero digits on both sides is legal.
    assert!(PaymentMethodPaymentCard::new("*").is_ok());
    // 7 leading digits.
    let e = PaymentMethodPaymentCard::new("1234567*4321").unwrap_err();
    assert_eq!(
        e,
        "Invalid primary account number \"1234567*4321\". Only provide at most the first 6 and last 4 digits, separated with a \"*\"."
    );
    // 5 trailing digits.
    assert!(PaymentMethodPaymentCard::new("123456*43210").is_err());
    // No asterisk, two asterisks, a stray letter.
    assert!(PaymentMethodPaymentCard::new("1234564321").is_err());
    assert!(PaymentMethodPaymentCard::new("123*456*4321").is_err());
    assert!(PaymentMethodPaymentCard::new("12345a*4321").is_err());
}

#[test]
fn length_caps_at_and_over() {
    let at34 = "A".repeat(34);
    let over34 = "A".repeat(35);
    assert!(PaymentMethodSEPADirectDebit::new().with_iban(&at34).is_ok());
    assert_eq!(
        PaymentMethodSEPADirectDebit::new().with_iban(&over34).unwrap_err(),
        format!("IBAN {over34} is too long!")
    );

    let at70 = "B".repeat(70);
    let over70 = "B".repeat(71);
    assert!(PaymentMethodSEPADirectDebit::new().with_bank_account_owner(&at70).is_ok());
    assert_eq!(
        PaymentMethodSEPADirectDebit::new().with_bank_account_owner(&over70).unwrap_err(),
        format!("BankAccountOwner {over70} is too long!")
    );

    let at35 = "C".repeat(35);
    let over35 = "C".repeat(36);
    assert!(PaymentMethodSEPADirectDebit::new().with_creditor_id(&at35).is_ok());
    assert_eq!(
        PaymentMethodSEPADirectDebit::new().with_creditor_id(&over35).unwrap_err(),
        format!("CreditorID {over35} is too long!")
    );
    assert!(PaymentMethodSEPADirectDebit::new().with_mandate_reference(&at35).is_ok());
    assert_eq!(
        PaymentMethodSEPADirectDebit::new().with_mandate_reference(&over35).unwrap_err(),
        format!("MandateReference {over35} is too long!")
    );

    let at255 = "D".repeat(255);
    let over255 = "D".repeat(256);
    assert!(PaymentMethodUniversalBankTransactionBeneficiaryAccount::new()
        .with_bank_name(&at255)
        .is_ok());
    assert_eq!(
        PaymentMethodUniversalBankTransactionBeneficiaryAccount::new()
            .with_bank_name(&over255)
            .unwrap_err(),
        format!("BankName {over255} is too long!")
    );
    assert!(PaymentMethodUniversalBankTransactionBeneficiaryAccount::new()
        .with_iban(&at34)
        .is_ok());
    assert!(PaymentMethodUniversalBankTransactionBeneficiaryAccount::new()
        .with_iban(&over34)
        .is_err());
    assert!(PaymentMethodUniversalBankTransactionBeneficiaryAccount::new()
        .with_bank_account_owner(&at70)
        .is_ok());
    assert!(PaymentMethodUniversalBankTransactionBeneficiaryAccount::new()
        .with_bank_account_owner(&over70)
        .is_err());

    assert!(PaymentMethodUniversalBankTransaction::new().with_payment_reference(&at35).is_ok());
    assert_eq!(
        PaymentMethodUniversalBankTransaction::new().with_payment_reference(&over35).unwrap_err(),
        format!("PaymentReference {over35} is too long!")
    );
}

#[test]
fn length_caps_count_characters_not_bytes() {
    // 34 two-byte characters: 68 bytes, 34 characters, accepted.
    let at34 = "\u{00c4}".repeat(34);
    let over34 = "\u{00c4}".repeat(35);
    assert!(PaymentMethodSEPADirectDebit::new().with_iban(&at34).is_ok());
    assert!(PaymentMethodSEPADirectDebit::new().with_iban(&over34).is_err());
}

#[test]
fn accepted_value_round_trips_into_output() {
    let iban = "AT491200011111111111";
    let d = PaymentMethodSEPADirectDebit::new().with_iban(iban).unwrap();
    assert!(PaymentMethod::sepa_direct_debit(d).to_xml().contains(iban));
}

#[test]
fn rejected_setter_leaves_no_trace() {
    // A failed chain is rebuilt from an earlier snapshot; a value rejected
    // earlier never shows in later output.
    let d = PaymentMethodSEPADirectDebit::new();
    assert!(d.with_iban(&"A".repeat(35)).is_err());
    let d = PaymentMethodSEPADirectDebit::new().with_iban("AT49").unwrap();
    let xml = PaymentMethod::sepa_direct_debit(d).to_xml();
    assert_eq!(
        xml,
        "<PaymentMethod><SEPADirectDebit><Type>B2C</Type><IBAN>AT49</IBAN></SEPADirectDebit></PaymentMethod>"
    );
}

#[test]
fn bank_code_type_must_be_two_characters() {
    let code = PaymentMethodUniversalBankTransactionBeneficiaryAccountBankCode::new(12000, "AUT");
    let e = PaymentMethodUniversalBankTransactionBeneficiaryAccount::new()
        .with_bank_code(code)
        .unwrap_err();
    assert_eq!(e, "BankCodeType AUT is not 2 characters long!");
    let code = PaymentMethodUniversalBankTransactionBeneficiaryAccountBankCode::new(12000, "A");
    assert!(PaymentMethodUniversalBankTransactionBeneficiaryAccount::new()
        .with_bank_code(code)
        .is_err());
}

#[test]
fn bank_code_renders_negative_and_extreme_values() {
    let code =
        PaymentMethodUniversalBankTransactionBeneficiaryAccountBankCode::new(-9223372036854775808, "AT");
    let a = PaymentMethodUniversalBankTransactionBeneficiaryAccount::new()
        .with_bank_code(code)
        .unwrap();
    assert_eq!(
        PaymentMethod::universal_bank_transaction_beneficiary_account(a).to_xml(),
        "<PaymentMethod><BeneficiaryAccount><BankCode BankCodeType=\"AT\">-9223372036854775808</BankCode></BeneficiaryAccount></PaymentMethod>"
    );
    let code = PaymentMethodUniversalBankTransactionBeneficiaryAccountBankCode::new(0, "AT");
    let a = PaymentMethodUniversalBankTransactionBeneficiaryAccount::new()
        .with_bank_code(code)
        .unwrap();
    assert_eq!(
        PaymentMethod::universal_bank_transaction_beneficiary_account(a).to_xml(),
        "<PaymentMethod><BeneficiaryAccount><BankCode BankCodeType=\"AT\">0</BankCode></BeneficiaryAccount></PaymentMethod>"
    );
}

#[test]
fn consolidator_payable_defaults_to_false() {
    assert_eq!(
        PaymentMethod::universal_bank_transaction(PaymentMethodUniversalBankTransaction::new())
            .to_xml(),
        "<PaymentMethod><UniversalBankTransaction ConsolidatorPayable=\"false\"></UniversalBankTransaction></PaymentMethod>"
    );
}

#[test]
fn checksum_rendered_only_beside_reference() {
    // A checksum without a reference is not rendered.
    let t = PaymentMethodUniversalBankTransaction::new().with_payment_reference_checksum("X");
    assert_eq!(
        PaymentMethod::universal_bank_transaction(t).to_xml(),
        "<PaymentMethod><UniversalBankTransaction ConsolidatorPayable=\"false\"></UniversalBankTransaction></PaymentMethod>"
    );
    // A reference without a checksum carries no CheckSum attribute.
    let t = PaymentMethodUniversalBankTransaction::new().with_payment_reference("123").unwrap();
    assert_eq!(
        PaymentMethod::universal_bank_transaction(t).to_xml(),
        "<PaymentMethod><UniversalBankTransaction ConsolidatorPayable=\"false\"><PaymentReference>123</PaymentReference></UniversalBankTransaction></PaymentMethod>"
    );
}

#[test]
fn beneficiary_accounts_keep_insertion_order() {
    let first = PaymentMethodUniversalBankTransactionBeneficiaryAccount::new()
        .with_bank_name("First")
        .unwrap();
    let second = PaymentMethodUniversalBankTransactionBeneficiaryAccount::new()
        .with_bank_name("Second")
        .unwrap();
    let t = PaymentMethodUniversalBankTransaction::new()
        .with_beneficiary_account(first)
        .with_beneficiary_account(second);
    assert_eq!(
        PaymentMethod::universal_bank_transaction(t).to_xml(),
        "<PaymentMethod><UniversalBankTransaction ConsolidatorPayable=\"false\"><BeneficiaryAccount><BankName>First</BankName></BeneficiaryAccount><BeneficiaryAccount><BankName>Second</BankName></BeneficiaryAccount></UniversalBankTransaction></PaymentMethod>"
    );
}

#[test]
fn comment_renders_first() {
    assert_eq!(
        PaymentMethod::other_payment().with_comment("Paid in advance").to_xml(),
        "<PaymentMethod><Comment>Paid in advance</Comment><OtherPayment></OtherPayment></PaymentMethod>"
    );
}

#[test]
fn builder_chain_matches_literal() {
    let built = PaymentMethodSEPADirectDebit::new()
        .with_direct_debit_type("B2B")
        .with_bic("BKAUATWW")
        .unwrap()
        .with_iban("AT491200011111111111")
        .unwrap()
        .with_bank_account_owner("Test")
        .unwrap()
        .with_creditor_id("AT12ZZZ00000000001")
        .unwrap()
        .with_mandate_reference("123")
        .unwrap()
        .with_debit_collection_date("2020-01-01")
        .unwrap();
    let literal = PaymentMethodSEPADirectDebit {
        direct_debit_type: Some("B2B"),
        bic: Some("BKAUATWW"),
        iban: Some("AT491200011111111111"),
        bank_account_owner: Some("Test"),
        creditor_id: Some("AT12ZZZ00000000001"),
        mandate_reference: Some("123"),
        debit_collection_date: Some("2020-01-01"),
    };
    assert_eq!(
        PaymentMethod::sepa_direct_debit(built).to_xml(),
        PaymentMethod::sepa_direct_debit(literal).to_xml()
    );
}

#[test]
fn rendering_twice_is_identical() {
    let m = PaymentMethod::payment_card(
        PaymentMethodPaymentCard::new("1234*4321").unwrap().with_card_holder_name("Name"),
    );
    assert_eq!(m.to_xml(), m.to_xml());
    let m = PaymentMethod::no_payment();
    assert_eq!(m.to_xml(), m.to_xml());
}
