use sage_data_bridge::detect::{
    account_code_candidates, account_label_candidates, account_table_candidates, entry_table_candidates,
    tiers_lookup_code_candidates, tiers_lookup_label_candidates, tiers_table_candidates, tiers_type_candidates,
};

#[test]
fn table_and_column_candidates_come_in_order_of_preference() {
    assert_eq!(tiers_table_candidates(), vec!["F_COMPTET", "COMPTET", "F_TIERS", "TIERS", "CUSTOMERS", "SUPPLIERS"]);
    assert_eq!(
        tiers_lookup_code_candidates(),
        vec!["CT_Num", "TIERS_CODE", "CODE_TIERS", "ACCOUNT_NO", "CUSTOMER_NO", "SUPPLIER_NO"]
    );
    assert_eq!(tiers_lookup_label_candidates()[0], "CT_Intitule");
    assert_eq!(tiers_lookup_label_candidates().len(), 7);
    assert_eq!(tiers_type_candidates(), vec!["CT_Type", "TIERS_TYPE", "ACCOUNT_TYPE", "TYPE_TIERS"]);
    assert_eq!(account_code_candidates(), vec!["CG_Num", "CT_Num", "COMPTE", "ACCOUNT_NO"]);
    assert_eq!(account_label_candidates()[0], "CG_Intitule");
    assert!(account_table_candidates().contains(&"F_COMPTEG"));
    assert!(!entry_table_candidates().is_empty());
}
