use vstd::prelude::*;
use crate::error::Error;
use crate::text::opt_view;
use vstd::string::StringExecFns;

verus! {

/// One sector of a geometry: the index of its material, its density model, and an optional
/// description.
#[derive(Debug)]
pub struct SectorRecord<D> {
    pub material: usize,
    pub density: D,
    pub description: Option<String>,
}

/// The material and sector tables of a geometry, generic over the material definition `M` and
/// the density model `D`.
#[derive(Debug)]
pub struct GeometryRecords<M, D> {
    pub materials: Vec<M>,
    pub sectors: Vec<SectorRecord<D>>,
}

/// The contents of a geometry's tables.
pub struct RecordsView<M, D> {
    pub materials: Seq<M>,
    pub sectors: Seq<SectorRecord<D>>,
}

impl<M, D> RecordsView<M, D> {
    /// Every sector refers to an existing material.
    pub open spec fn wf(self) -> bool {
        forall|i: int|
            0 <= i < self.sectors.len() ==> #[trigger] self.sectors[i].material
                < self.materials.len()
    }

    /// The material at `index`, if any.
    pub open spec fn material(self, index: int) -> Option<M> {
        if 0 <= index < self.materials.len() {
            Some(self.materials[index])
        } else {
            None
        }
    }

    /// The tables once material `index` is replaced by `m`.
    pub open spec fn with_material(self, index: int, m: M) -> RecordsView<M, D> {
        RecordsView { materials: self.materials.update(index, m), sectors: self.sectors }
    }

    /// The tables once sector `index` is given the material and density that are set.
    pub open spec fn with_sector(
        self,
        index: int,
        material: Option<usize>,
        density: Option<D>,
    ) -> RecordsView<M, D> {
        let old = self.sectors[index];
        let rec = SectorRecord {
            material: match material {
                Some(k) => k,
                None => old.material,
            },
            density: match density {
                Some(d) => d,
                None => old.density,
            },
            description: old.description,
        };
        RecordsView { materials: self.materials, sectors: self.sectors.update(index, rec) }
    }
}

impl<M, D> View for GeometryRecords<M, D> {
    type V = RecordsView<M, D>;

    open spec fn view(&self) -> RecordsView<M, D> {
        RecordsView { materials: self.materials@, sectors: self.sectors@ }
    }
}

impl<M, D> GeometryRecords<M, D> {
    /// Builds the tables, checking that every sector refers to an existing material.
    pub fn new(materials: Vec<M>, sectors: Vec<SectorRecord<D>>) -> (r: Result<
        GeometryRecords<M, D>,
        Error,
    >)
        ensures
            match r {
                Ok(g) => g@.wf() && g.materials@ == materials@ && g.sectors@ == sectors@,
                Err(e) => e == Error::InvalidArgument && !(RecordsView {
                    materials: materials@,
                    sectors: sectors@,
                }).wf(),
            },
    {
        let n = sectors.len();
        let mut i: usize = 0;
        while i < n
            invariant
                n == sectors@.len(),
                i <= n,
                forall|j: int| 0 <= j < i ==> #[trigger] sectors@[j].material < materials@.len(),
            decreases n - i,
        {
            if sectors[i].material >= materials.len() {
                return Err(Error::InvalidArgument);
            }
            i += 1;
        }
        Ok(GeometryRecords { materials, sectors })
    }

    /// The material at `index`, if any.
    pub fn material(&self, index: usize) -> (r: Option<&M>)
        ensures
            match r {
                Some(m) => self@.material(index as int) == Some(*m),
                None => self@.material(index as int) is None,
            },
    {
        if index < self.materials.len() {
            Some(&self.materials[index])
        } else {
            None
        }
    }

    /// Replaces material `index`. An index out of range is an invalid argument, and leaves the
    /// tables unchanged.
    pub fn update_material(&mut self, index: usize, material: M) -> (r: Result<(), Error>)
        requires
            old(self)@.wf(),
        ensures
            final(self)@.wf(),
            r is Ok <==> index < old(self).materials@.len(),
            r is Ok ==> final(self)@ == old(self)@.with_material(index as int, material),
            r is Err ==> r == Err::<(), Error>(Error::InvalidArgument) && final(self)@ == old(
                self,
            )@,
    {
        if index >= self.materials.len() {
            return Err(Error::InvalidArgument);
        }
        self.materials.set(index, material);
        Ok(())
    }

    /// Sets the material and/or the density model of sector `index`. A sector or material index
    /// out of range is an invalid argument, and leaves the tables unchanged.
    pub fn update_sector(&mut self, index: usize, material: Option<usize>, density: Option<D>) -> (r:
        Result<(), Error>)
        requires
            old(self)@.wf(),
        ensures
            final(self)@.wf(),
            r is Ok <==> index < old(self).sectors@.len() && match material {
                Some(k) => k < old(self).materials@.len(),
                None => true,
            },
            r is Ok ==> final(self)@ == old(self)@.with_sector(index as int, material, density),
            r is Err ==> r == Err::<(), Error>(Error::InvalidArgument) && final(self)@ == old(
                self,
            )@,
    {
        if index >= self.sectors.len() {
            return Err(Error::InvalidArgument);
        }
        match material {
            Some(k) => if k >= self.materials.len() {
                return Err(Error::InvalidArgument);
            },
            None => {},
        }
        let ghost before = self.sectors@;
        let mut rec = self.sectors.remove(index);
        match material {
            Some(k) => {
                rec.material = k;
            },
            None => {},
        }
        match density {
            Some(d) => {
                rec.density = d;
            },
            None => {},
        }
        self.sectors.insert(index, rec);
        assert(self.sectors@ =~= before.update(index as int, rec));
        Ok(())
    }
}

/// The text that represents a geometry sector, given the representations of its material and
/// of its density model: `GeometrySector(material, density)`, with the description quoted as a
/// third argument when there is one.
pub open spec fn sector_repr_spec(
    material: Seq<char>,
    density: Seq<char>,
    description: Option<Seq<char>>,
) -> Seq<char> {
    let head = "GeometrySector("@ + material + ", "@ + density;
    match description {
        None => head + ")"@,
        Some(d) => head + ", '"@ + d + "')"@,
    }
}

/// Writes the text that represents a geometry sector; see `sector_repr_spec`.
pub fn sector_repr(material: &str, density: &str, description: Option<&str>) -> (r: String)
    ensures
        r@ == sector_repr_spec(material@, density@, opt_view(description)),
{
    let mut r = String::from_str("GeometrySector(");
    r.append(material);
    r.append(", ");
    r.append(density);
    match description {
        None => {
            r.append(")");
        },
        Some(d) => {
            r.append(", '");
            r.append(d);
            r.append("')");
        },
    }
    r
}

/// Reading a material back after replacing it gives the material that was set.
pub proof fn updated_material_reads_back<M, D>(g: RecordsView<M, D>, index: int, m: M)
    requires
        0 <= index < g.materials.len(),
    ensures
        g.with_material(index, m).material(index) == Some(m),
{
}

} // verus!
