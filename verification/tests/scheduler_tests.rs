use arevel::constants::{
    APP_SYMBOL_START, INTERPRETER_ERR, RUNTIME_ERR_CIRCULAR_DEP, RUNTIME_ERR_DIV_Z,
    SYMBOL_ID_DIVIDE, SYMBOL_ID_MULTIPLY, SYMBOL_ID_NOT, SYMBOL_ID_PLUS, SYMBOL_TRUE,
};
use arevel::environment::Environment;
use arevel::expression::Expression;
use arevel::scheduler::{eval_tokens, run_cells};
use arevel::structs::{Atom, NumOp};
use arevel::utils::create_value_symbol;

fn machine_unit(op: NumOp, a: u64, b: u64) -> u64 {
    let x = f64::from_bits(a);
    let y = f64::from_bits(b);
    match op {
        NumOp::Add => (x + y).to_bits(),
        NumOp::Sub => (x - y).to_bits(),
        NumOp::Mul => (x * y).to_bits(),
        NumOp::Div => (x / y).to_bits(),
        NumOp::Ceil => x.ceil().to_bits(),
        NumOp::Floor => x.floor().to_bits(),
        NumOp::Trunc => x.trunc().to_bits(),
        NumOp::Round => x.round().to_bits(),
        NumOp::Sqrt => x.sqrt().to_bits(),
    }
}

fn numeric_cell(env: &mut Environment, cell_id: u64, value: f64, deps: Vec<u64>) -> Expression {
    let mut cell = Expression::new(cell_id, format!("{}", value));
    cell.symbol = env.define_identifier();
    cell.parsed = vec![Atom::NumericValue(value.to_bits())];
    cell.depends_on = deps;
    cell
}

#[test]
fn test_write_once_result() {
    // Setting a cell's result twice retains the first value.
    let mut cell = Expression::new(1, "1 + 1".to_string());
    assert_eq!(cell.result, None);
    cell.set_result(f64::to_bits(2.0));
    cell.set_result(f64::to_bits(9.0));
    assert_eq!(cell.result, Some(f64::to_bits(2.0)));
}

#[test]
fn test_scheduler_orders_dependencies() {
    // Cells {a: no deps, b: depends on a, c: depends on a and b}
    // evaluate with a before b and b before c, and every counter ends
    // at zero.
    let mut env = Environment::new(APP_SYMBOL_START);
    let a = numeric_cell(&mut env, 1, 10.0, vec![]);
    let b = numeric_cell(&mut env, 2, 20.0, vec![1]);
    let c = numeric_cell(&mut env, 3, 30.0, vec![1, 2]);
    // Insert out of order to show the ordering comes from the edges.
    let mut cells = vec![c, b, a];
    let order = run_cells(&mut env, &mut cells, &machine_unit).expect("acyclic graph");
    let pos = |id: u64| order.iter().position(|x| *x == id).unwrap();
    assert_eq!(order.len(), 3);
    assert!(pos(1) < pos(2));
    assert!(pos(2) < pos(3));
    for cell in cells.iter() {
        assert_eq!(cell.unmet_depend_count, 0);
        assert!(cell.result.is_some());
    }
}

#[test]
fn test_scheduler_detects_cycle() {
    // Cells {x: depends on y, y: depends on x}: the pass fails with the
    // circular-dependency error and neither result is ever set.
    let mut env = Environment::new(APP_SYMBOL_START);
    let x = numeric_cell(&mut env, 1, 1.0, vec![2]);
    let y = numeric_cell(&mut env, 2, 2.0, vec![1]);
    let mut cells = vec![x, y];
    let r = run_cells(&mut env, &mut cells, &machine_unit);
    assert_eq!(r, Err(RUNTIME_ERR_CIRCULAR_DEP));
    for cell in cells.iter() {
        assert!(cell.unmet_depend_count > 0);
        assert_eq!(cell.result, None);
    }
}

#[test]
fn test_scheduler_partial_cycle() {
    // An acyclic cell still evaluates while the cyclic pair is reported.
    let mut env = Environment::new(APP_SYMBOL_START);
    let free = numeric_cell(&mut env, 7, 5.0, vec![]);
    let x = numeric_cell(&mut env, 1, 1.0, vec![2]);
    let y = numeric_cell(&mut env, 2, 2.0, vec![1]);
    let mut cells = vec![free, x, y];
    let r = run_cells(&mut env, &mut cells, &machine_unit);
    assert_eq!(r, Err(RUNTIME_ERR_CIRCULAR_DEP));
    assert_eq!(cells[0].unmet_depend_count, 0);
    assert_eq!(cells[0].result, Some(f64::to_bits(5.0)));
    assert!(cells[1].unmet_depend_count > 0 && cells[1].result.is_none());
    assert!(cells[2].unmet_depend_count > 0 && cells[2].result.is_none());
}

#[test]
fn test_scheduler_dangling_dependency() {
    // A dependency naming no cell never clears: the pass fails with the
    // circular-dependency error while independent cells still evaluate.
    let mut env = Environment::new(APP_SYMBOL_START);
    let free = numeric_cell(&mut env, 1, 8.0, vec![]);
    let dangling = numeric_cell(&mut env, 2, 9.0, vec![99]);
    let mut cells = vec![free, dangling];
    let r = run_cells(&mut env, &mut cells, &machine_unit);
    assert_eq!(r, Err(RUNTIME_ERR_CIRCULAR_DEP));
    assert_eq!(cells[0].result, Some(f64::to_bits(8.0)));
    assert!(cells[1].unmet_depend_count > 0 && cells[1].result.is_none());
}

#[test]
fn test_scheduler_dataflow_between_cells() {
    // A later cell reads an earlier cell's bound result through its
    // symbol: cross-cell arithmetic resolves through the scope.
    let mut env = Environment::new(APP_SYMBOL_START);
    let first = numeric_cell(&mut env, 1, 21.0, vec![]);
    let first_symbol = first.symbol;
    let mut second = Expression::new(2, "first * 2".to_string());
    second.symbol = env.define_identifier();
    second.parsed = vec![
        Atom::SymbolValue(first_symbol),
        Atom::NumericValue(f64::to_bits(2.0)),
        Atom::SymbolValue(create_value_symbol(SYMBOL_ID_MULTIPLY)),
    ];
    second.depends_on = vec![1];
    let mut cells = vec![first, second];
    run_cells(&mut env, &mut cells, &machine_unit).expect("acyclic graph");
    assert_eq!(cells[1].result, Some(f64::to_bits(42.0)));
}

#[test]
fn test_scheduler_binds_results() {
    // An evaluated cell's result is bound under its symbol, so later
    // cells can resolve it through the scope.
    let mut env = Environment::new(APP_SYMBOL_START);
    let a = numeric_cell(&mut env, 1, 4.5, vec![]);
    let sym = a.symbol;
    let mut cells = vec![a];
    run_cells(&mut env, &mut cells, &machine_unit).expect("single cell");
    let ident = env.lookup(sym).expect("bound result");
    match &ident.value {
        Some(Atom::NumericValue(bits)) => assert_eq!(*bits, f64::to_bits(4.5)),
        _ => panic!("expected the numeric result bound"),
    }
}

#[test]
fn test_eval_tokens_arithmetic() {
    // 6 7 * reduces to 42; 5 0 / propagates the divide-by-zero error.
    let mut env = Environment::new(APP_SYMBOL_START);
    let tokens = vec![
        Atom::NumericValue(f64::to_bits(6.0)),
        Atom::NumericValue(f64::to_bits(7.0)),
        Atom::SymbolValue(create_value_symbol(SYMBOL_ID_MULTIPLY)),
    ];
    assert_eq!(f64::from_bits(eval_tokens(&mut env, &tokens, &machine_unit)), 42.0);

    let tokens = vec![
        Atom::NumericValue(f64::to_bits(5.0)),
        Atom::NumericValue(f64::to_bits(0.0)),
        Atom::SymbolValue(create_value_symbol(SYMBOL_ID_DIVIDE)),
    ];
    assert_eq!(eval_tokens(&mut env, &tokens, &machine_unit), RUNTIME_ERR_DIV_Z);
}

#[test]
fn test_eval_tokens_shapes() {
    // An empty stream and a stream with a dangling operator are both
    // interpreter errors; a unary `not` works on one operand.
    let mut env = Environment::new(APP_SYMBOL_START);
    let empty: Vec<Atom> = vec![];
    assert_eq!(eval_tokens(&mut env, &empty, &machine_unit), INTERPRETER_ERR);

    let dangling = vec![Atom::SymbolValue(create_value_symbol(SYMBOL_ID_PLUS))];
    assert_eq!(eval_tokens(&mut env, &dangling, &machine_unit), INTERPRETER_ERR);

    let negated = vec![
        Atom::NumericValue(f64::to_bits(0.0)),
        Atom::SymbolValue(create_value_symbol(SYMBOL_ID_NOT)),
    ];
    assert_eq!(eval_tokens(&mut env, &negated, &machine_unit), SYMBOL_TRUE);
}

#[test]
fn test_eval_tokens_string_concat() {
    // Two string operands and a plus: the result is a fresh pointer to
    // the concatenation, bound in the scope.
    let mut env = Environment::new(APP_SYMBOL_START);
    let tokens = vec![
        Atom::StringValue("foo".to_string()),
        Atom::StringValue("bar".to_string()),
        Atom::SymbolValue(create_value_symbol(SYMBOL_ID_PLUS)),
    ];
    let r = eval_tokens(&mut env, &tokens, &machine_unit);
    let ident = env.deep_resolve(r).expect("concatenated string bound");
    match &ident.value {
        Some(Atom::StringValue(s)) => assert_eq!(s, "foobar"),
        _ => panic!("expected a string atom"),
    }
}
