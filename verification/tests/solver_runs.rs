use localsearch_rs::{
    Cost, CostFunction, Executor, IterState, LocalSearchError, Neighborhood, Param, RandomSource,
    State, TabuSearch, VariableNeighborhood,
};

const BOARD_SIZE: usize = 8;

#[derive(Clone, Copy, PartialEq, Debug)]
struct Board([[bool; BOARD_SIZE]; BOARD_SIZE]);

impl Param for Board {
    fn duplicate(&self) -> Board {
        *self
    }

    fn same_as(&self, other: &Board) -> bool {
        self == other
    }
}

/// A small deterministic generator, so the runs are seed-reproducible.
struct Lcg(u64);

impl Lcg {
    fn new(seed: u64) -> Lcg {
        Lcg(seed)
    }

    fn next_u64(&mut self) -> u64 {
        self.0 = self
            .0
            .wrapping_mul(6364136223846793005)
            .wrapping_add(1442695040888963407);
        self.0 >> 11
    }

    fn next_f64(&mut self) -> f64 {
        (self.next_u64() & ((1u64 << 53) - 1)) as f64 / (1u64 << 53) as f64
    }
}

fn cost_to_f64(c: &Cost) -> f64 {
    match c {
        Cost::Fin(v) => *v as f64,
        Cost::PosInf => f64::INFINITY,
        Cost::NegInf => f64::NEG_INFINITY,
    }
}

impl RandomSource for Lcg {
    fn next_index(&mut self, bound: u64) -> u64 {
        self.next_u64() % bound
    }

    fn accept_worse(&mut self, delta: &Cost, iter: u32, init_temp: i64) -> bool {
        let d = cost_to_f64(delta);
        1.0 / (1.0 + f64::from(iter + 1).powf(d / init_temp as f64)) > self.next_f64()
    }
}

struct EightQueens {}

impl EightQueens {
    fn init_solution(rng: &mut Lcg) -> Result<Board, LocalSearchError> {
        let mut board = [[false; BOARD_SIZE]; BOARD_SIZE];
        let mut queen_cols: Vec<usize> = (0..BOARD_SIZE).collect();
        for i in (1..BOARD_SIZE).rev() {
            let j = rng.next_index((i + 1) as u64) as usize;
            queen_cols.swap(i, j);
        }
        for (i, col) in queen_cols.iter().enumerate() {
            board[i][*col] = true;
        }
        Ok(Board(board))
    }
}

impl CostFunction for EightQueens {
    type Param = Board;

    fn cost(&self, param: &Board) -> Result<Cost, LocalSearchError> {
        let board = &param.0;
        let mut num_attacking: i64 = 0;
        for i in 0..BOARD_SIZE {
            for j in 0..BOARD_SIZE {
                if board[i][j] {
                    for k in 0..BOARD_SIZE {
                        if k != j && board[i][k] {
                            num_attacking += 1;
                        }
                    }
                    for k in 0..BOARD_SIZE {
                        if k != i && board[k][j] {
                            num_attacking += 1;
                        }
                    }
                    for k in 1..BOARD_SIZE {
                        if i >= k && j >= k && board[i - k][j - k] {
                            num_attacking += 1;
                        }
                        if i + k < BOARD_SIZE && j + k < BOARD_SIZE && board[i + k][j + k] {
                            num_attacking += 1;
                        }
                        if i >= k && j + k < BOARD_SIZE && board[i - k][j + k] {
                            num_attacking += 1;
                        }
                        if i + k < BOARD_SIZE && j >= k && board[i + k][j - k] {
                            num_attacking += 1;
                        }
                    }
                }
            }
        }
        Ok(Cost::Fin(num_attacking))
    }
}

fn apply_move(param: &Board, neighbor: &(usize, usize)) -> Board {
    let mut new_state = *param;
    let (queen_on_row, queen_new_col) = neighbor;
    new_state.0[*queen_on_row] = [false; BOARD_SIZE];
    new_state.0[*queen_on_row][*queen_new_col] = true;
    new_state
}

impl Neighborhood for EightQueens {
    type Param = Board;
    type Neighbor = (usize, usize);

    fn get_neighbor_moves<R: RandomSource>(
        &self,
        rng: &mut R,
        _param: &Board,
    ) -> Result<Vec<Self::Neighbor>, LocalSearchError> {
        Ok((0..100)
            .map(|_| {
                (
                    rng.next_index(BOARD_SIZE as u64) as usize,
                    rng.next_index(BOARD_SIZE as u64) as usize,
                )
            })
            .collect())
    }

    fn get_neighbor_delta(
        &self,
        param: &Self::Param,
        neighbor: &Self::Neighbor,
    ) -> Result<Cost, LocalSearchError> {
        let new_state = apply_move(param, neighbor);
        let after = self.cost(&new_state)?;
        let before = self.cost(param)?;
        Ok(after.minus(&before))
    }

    fn make_move(
        &self,
        param: &Self::Param,
        neighbor: &Self::Neighbor,
    ) -> Result<Self::Param, LocalSearchError> {
        Ok(apply_move(param, neighbor))
    }
}

#[test]
fn test_variable_neighborhood() {
    let mut rng = Lcg::new(17);
    let problem = EightQueens {};
    let param = EightQueens::init_solution(&mut rng).unwrap();
    let solver = VariableNeighborhood::new(Some(10), rng).with_init_temp(100);
    let res = Executor::new(problem, solver)
        .configure(|state: IterState<Board>| state.param(param).target_cost(Cost::Fin(0)))
        .unwrap()
        .run()
        .unwrap();
    let cost = res.state().get_best_cost();
    assert_eq!(cost, Cost::Fin(0));
}

#[test]
fn test_tabu_search() {
    let mut rng = Lcg::new(42);
    let problem = EightQueens {};
    let param = EightQueens::init_solution(&mut rng).unwrap();
    let solver = TabuSearch::new(Some(10), 20, rng).with_init_temp(100);
    let res = Executor::new(problem, solver)
        .configure(|state: IterState<Board>| state.param(param).target_cost(Cost::Fin(0)))
        .unwrap()
        .run()
        .unwrap();
    let cost = res.state().get_best_cost();
    assert_eq!(cost, Cost::Fin(0));
}

#[test]
fn tabu_search_stops_at_iteration_bound() {
    let mut rng = Lcg::new(5);
    let problem = EightQueens {};
    let param = EightQueens::init_solution(&mut rng).unwrap();
    let solver = TabuSearch::new(Some(10), 20, rng).with_init_temp(100);
    let res = Executor::new(problem, solver)
        .configure(|state: IterState<Board>| state.param(param).max_iters(3))
        .unwrap()
        .run()
        .unwrap();
    assert_eq!(res.state().get_iter(), 3);
    assert_eq!(
        res.state().get_termination_reason(),
        Some(&localsearch_rs::Reason::MaxItersReached)
    );
}
